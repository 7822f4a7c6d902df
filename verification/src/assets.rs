use vstd::prelude::*;

verus! {

/// File name of the Vencord browser build's script.
pub const VENCORD_JS: &'static str = "Vencord.js";

/// File name of the Vencord browser build's style sheet.
pub const VENCORD_CSS: &'static str = "Vencord.css";

/// The error when no candidate directory holds both files.
pub const ASSETS_NOT_FOUND: &'static str = "Vencord assets (Vencord.js / Vencord.css) not found in any resource location";

/// The directory that a candidate location is under.
#[derive(Clone, Copy, PartialEq, Eq, Structural, Debug)]
pub enum AssetBase {
    /// The app's resource directory.
    ResourceDir,
    /// The build's manifest directory (`CARGO_MANIFEST_DIR` at run time).
    ManifestDir,
}

/// A directory that may hold the Vencord build: `base/resources/vencord` when
/// `under_resources`, else `base/vencord`.
#[derive(Clone, Copy, PartialEq, Eq, Structural, Debug)]
pub struct AssetDir {
    pub base: AssetBase,
    pub under_resources: bool,
}

/// The directories searched for the Vencord build, in order: under the app's resource
/// directory `resources/vencord` then `vencord`, then `resources/vencord` under the build's
/// manifest directory; a base that is not known gives no candidate.
pub fn asset_candidates(has_resource_dir: bool, has_manifest_dir: bool) -> (dirs: Vec<AssetDir>)
    ensures
        dirs@ == (if has_resource_dir {
            seq![
                AssetDir { base: AssetBase::ResourceDir, under_resources: true },
                AssetDir { base: AssetBase::ResourceDir, under_resources: false },
            ]
        } else {
            Seq::empty()
        }) + (if has_manifest_dir {
            seq![AssetDir { base: AssetBase::ManifestDir, under_resources: true }]
        } else {
            Seq::empty()
        }),
{
    let mut dirs: Vec<AssetDir> = Vec::new();
    if has_resource_dir {
        dirs.push(AssetDir { base: AssetBase::ResourceDir, under_resources: true });
        dirs.push(AssetDir { base: AssetBase::ResourceDir, under_resources: false });
    }
    if has_manifest_dir {
        dirs.push(AssetDir { base: AssetBase::ManifestDir, under_resources: true });
    }
    proof {
        assert(dirs@ =~= (if has_resource_dir {
            seq![
                AssetDir { base: AssetBase::ResourceDir, under_resources: true },
                AssetDir { base: AssetBase::ResourceDir, under_resources: false },
            ]
        } else {
            Seq::empty()
        }) + (if has_manifest_dir {
            seq![AssetDir { base: AssetBase::ManifestDir, under_resources: true }]
        } else {
            Seq::empty()
        }));
    }
    dirs
}

/// The first candidate in which both the script and the style sheet are files, if any.
/// `present[i]` tells, for candidate `i`, whether each of the two is a file.
pub fn first_complete(present: &Vec<(bool, bool)>) -> (found: Option<usize>)
    ensures
        found matches Some(i) ==> {
            &&& i < present@.len()
            &&& present@[i as int].0 && present@[i as int].1
            &&& forall|j: int| 0 <= j < i ==> !(#[trigger] present@[j].0 && present@[j].1)
        },
        found is None ==> forall|j: int|
            0 <= j < present@.len() ==> !(#[trigger] present@[j].0 && present@[j].1),
{
    let n = present.len();
    for i in 0..n
        invariant
            n == present@.len(),
            forall|j: int| 0 <= j < i ==> !(#[trigger] present@[j].0 && present@[j].1),
    {
        let (js, css) = present[i];
        if js && css {
            return Some(i);
        }
    }
    None
}

} // verus!
