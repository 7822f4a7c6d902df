use vstd::prelude::*;
use crate::text::{ends_with, has_suffix};

verus! {

/// A directory entry of the desktop Vencord `themes` folder: its file name (lossily decoded)
/// and its contents, if they could be read as UTF-8 text.
pub struct ThemeFile {
    pub file_name: String,
    pub content: Option<String>,
}

/// Settings, QuickCSS and themes of a desktop Vencord installation, to be imported on first launch.
pub struct VencordMigration {
    pub settings: String,
    pub quick_css: String,
    /// `(file name, contents)` of each theme, in the order the folder listed them.
    pub themes: Vec<(String, String)>,
}

/// `k` is the position of the last `.` of `name`.
pub open spec fn is_last_dot(name: Seq<char>, k: int) -> bool {
    &&& 0 <= k < name.len()
    &&& name[k] == '.'
    &&& forall|j: int| k < j < name.len() ==> name[j] != '.'
}

/// `Path::extension` of a file name: the text after its last `.`, except for `..`, a name
/// without `.`, and a name whose only `.` is its first character.
pub open spec fn path_extension(name: Seq<char>) -> Option<Seq<char>> {
    if name == seq!['.', '.'] {
        None
    } else if exists|k: int| is_last_dot(name, k) {
        let k = choose|k: int| is_last_dot(name, k);
        if k == 0 {
            None
        } else {
            Some(name.skip(k + 1))
        }
    } else {
        None
    }
}

/// A theme is imported from a file whose extension is `css`.
pub open spec fn is_css_file_name(name: Seq<char>) -> bool {
    path_extension(name) == Some(seq!['c', 's', 's'])
}

/// The themes that the import keeps: each file whose extension is `css` and whose contents
/// could be read, as `(file name, contents)`, in the order given.
pub open spec fn imported_themes(files: Seq<ThemeFile>) -> Seq<(String, String)>
    decreases files.len(),
{
    if files.len() == 0 {
        Seq::empty()
    } else {
        let rest = imported_themes(files.drop_last());
        let f = files.last();
        if is_css_file_name(f.file_name@) && f.content is Some {
            rest.push((f.file_name, f.content->0))
        } else {
            rest
        }
    }
}

proof fn lemma_css_name(name: Seq<char>)
    ensures
        is_css_file_name(name) <==> (name.len() >= 5 && has_suffix(name, seq!['.', 'c', 's', 's'])),
{
    let n = name.len() as int;
    let ext = seq!['c', 's', 's'];
    if name.len() >= 5 && has_suffix(name, seq!['.', 'c', 's', 's']) {
        assert(name[n - 4] == seq!['.', 'c', 's', 's'][0]);
        assert(name[n - 3] == 'c' && name[n - 2] == 's' && name[n - 1] == 's') by {
            assert(name.skip(n - 4)[1] == name[n - 3]);
            assert(name.skip(n - 4)[2] == name[n - 2]);
            assert(name.skip(n - 4)[3] == name[n - 1]);
        }
        assert(is_last_dot(name, n - 4));
        let k = choose|k: int| is_last_dot(name, k);
        assert(k == n - 4);
        assert(name.skip(k + 1) =~= ext);
        assert(name != seq!['.', '.']);
    }
    if is_css_file_name(name) {
        let k = choose|k: int| is_last_dot(name, k);
        assert(name.skip(k + 1) == ext);
        assert(k == n - 4);
        assert(name.skip(n - 4) =~= seq!['.', 'c', 's', 's']) by {
            assert(name.skip(k + 1)[0] == name[k + 1]);
            assert(name.skip(k + 1)[1] == name[k + 2]);
            assert(name.skip(k + 1)[2] == name[k + 3]);
        }
    }
}

/// Whether a file name has the extension `css`, as `Path::extension` reads it.
pub fn has_css_extension(name: &str) -> (r: bool)
    ensures
        r == is_css_file_name(name@),
{
    proof {
        lemma_css_name(name@);
        reveal_strlit(".css");
        assert(".css"@ =~= seq!['.', 'c', 's', 's']);
    }
    name.unicode_len() >= 5 && ends_with(name, ".css")
}

/// Builds the data to import from what was read of a desktop Vencord installation: its
/// `settings.json` (without which there is nothing to import), its `quickCss.css` (empty
/// when absent) and the entries of its `themes` folder.
pub fn load_vencord_migration(
    settings: Option<String>,
    quick_css: Option<String>,
    theme_files: Vec<ThemeFile>,
) -> (migration: Option<VencordMigration>)
    ensures
        settings is None ==> migration is None,
        settings matches Some(s) ==> migration matches Some(m) && {
            &&& m.settings == s
            &&& m.quick_css@ == (match quick_css {
                Some(q) => q@,
                None => Seq::<char>::empty(),
            })
            &&& m.themes@ == imported_themes(theme_files@)
        },
{
    let settings = match settings {
        Some(s) => s,
        None => return None,
    };
    let quick_css = match quick_css {
        Some(q) => q,
        None => String::new(),
    };
    let mut themes: Vec<(String, String)> = Vec::new();
    let n = theme_files.len();
    for i in 0..n
        invariant
            n == theme_files@.len(),
            themes@ == imported_themes(theme_files@.take(i as int)),
    {
        proof {
            assert(theme_files@.take(i + 1).drop_last() =~= theme_files@.take(i as int));
            assert(theme_files@.take(i + 1).last() == theme_files@[i as int]);
        }
        let file = &theme_files[i];
        if has_css_extension(file.file_name.as_str()) {
            match &file.content {
                Some(content) => {
                    themes.push((file.file_name.clone(), content.clone()));
                },
                None => {},
            }
        }
    }
    proof {
        assert(theme_files@.take(n as int) =~= theme_files@);
    }
    Some(VencordMigration { settings, quick_css, themes })
}

} // verus!

verus! {

/// A theme file that the import keeps.
pub open spec fn is_imported(f: ThemeFile) -> bool {
    is_css_file_name(f.file_name@) && f.content is Some
}

/// The import keeps exactly the readable `.css` files of the themes folder: each imported
/// theme is one such file (its name and its contents), each such file is imported, and no
/// more themes come out than files went in.
pub proof fn law_imported_themes_are_readable_css_files(files: Seq<ThemeFile>)
    ensures
        imported_themes(files).len() <= files.len(),
        forall|i: int|
            0 <= i < imported_themes(files).len() ==> is_css_file_name(
                (#[trigger] imported_themes(files)[i]).0@,
            ) && exists|j: int|
                0 <= j < files.len() && is_imported(files[j]) && files[j].file_name
                    == imported_themes(files)[i].0 && files[j].content == Some(
                    imported_themes(files)[i].1,
                ),
        forall|j: int|
            0 <= j < files.len() && is_imported(#[trigger] files[j]) ==> exists|i: int|
                0 <= i < imported_themes(files).len() && imported_themes(files)[i] == (
                    files[j].file_name,
                    files[j].content->0,
                ),
    decreases files.len(),
{
    if files.len() > 0 {
        let init = files.drop_last();
        law_imported_themes_are_readable_css_files(init);
        let out = imported_themes(files);
        let prev = imported_themes(init);
        let n = files.len() - 1;
        assert forall|i: int| 0 <= i < out.len() implies is_css_file_name(
            (#[trigger] out[i]).0@,
        ) && exists|j: int|
            0 <= j < files.len() && is_imported(files[j]) && files[j].file_name == out[i].0
                && files[j].content == Some(out[i].1) by {
            if i < prev.len() {
                assert(out[i] == prev[i]);
                let j = choose|j: int|
                    0 <= j < init.len() && is_imported(init[j]) && init[j].file_name == prev[i].0
                        && init[j].content == Some(prev[i].1);
                assert(files[j] == init[j]);
            } else {
                assert(files[n] == files.last());
            }
        }
        assert forall|j: int| 0 <= j < files.len() && is_imported(#[trigger] files[j]) implies exists|
            i: int,
        |
            0 <= i < out.len() && out[i] == (files[j].file_name, files[j].content->0) by {
            if j < n {
                assert(init[j] == files[j]);
                let i = choose|i: int|
                    0 <= i < prev.len() && prev[i] == (init[j].file_name, init[j].content->0);
                assert(out[i] == prev[i]);
            } else {
                assert(out[prev.len() as int] == (files[j].file_name, files[j].content->0));
            }
        }
    }
}

} // verus!
