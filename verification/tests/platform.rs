use taurcord::assets::{asset_candidates, first_complete, AssetBase, AssetDir, ASSETS_NOT_FOUND};
use taurcord::platform::{auto_allows, browser_args, PermissionKind};

#[test]
fn browser_args_release() {
    assert_eq!(
        browser_args(false),
        "--disable-features=msWebOOUI,msPdfOOUI,msSmartScreenProtection --autoplay-policy=no-user-gesture-required --disable-web-security"
    );
}

#[test]
fn browser_args_debug_adds_port() {
    assert_eq!(
        browser_args(true),
        "--disable-features=msWebOOUI,msPdfOOUI,msSmartScreenProtection --autoplay-policy=no-user-gesture-required --disable-web-security --remote-debugging-port=9223"
    );
}

#[test]
fn voice_permissions_are_granted() {
    assert!(auto_allows(PermissionKind::Microphone));
    assert!(auto_allows(PermissionKind::Camera));
    assert!(auto_allows(PermissionKind::Notifications));
}

#[test]
fn other_permissions_are_not_granted() {
    for kind in [
        PermissionKind::Unknown,
        PermissionKind::Geolocation,
        PermissionKind::OtherSensors,
        PermissionKind::ClipboardRead,
        PermissionKind::MultipleAutomaticDownloads,
        PermissionKind::FileReadWrite,
        PermissionKind::Autoplay,
        PermissionKind::LocalFonts,
        PermissionKind::MidiSystemExclusiveMessages,
        PermissionKind::WindowManagement,
    ] {
        assert!(!auto_allows(kind), "{kind:?}");
    }
}

#[test]
fn asset_candidates_in_order() {
    let dirs = asset_candidates(true, true);
    assert_eq!(
        dirs,
        vec![
            AssetDir { base: AssetBase::ResourceDir, under_resources: true },
            AssetDir { base: AssetBase::ResourceDir, under_resources: false },
            AssetDir { base: AssetBase::ManifestDir, under_resources: true },
        ]
    );
}

#[test]
fn asset_candidates_without_resource_dir() {
    assert_eq!(
        asset_candidates(false, true),
        vec![AssetDir { base: AssetBase::ManifestDir, under_resources: true }]
    );
    assert_eq!(asset_candidates(true, false).len(), 2);
}

#[test]
fn asset_candidates_none_known() {
    assert!(asset_candidates(false, false).is_empty());
}

#[test]
fn first_complete_needs_both_files() {
    assert_eq!(first_complete(&vec![(true, false), (false, true), (true, true), (true, true)]), Some(2));
}

#[test]
fn first_complete_none() {
    assert_eq!(first_complete(&vec![(true, false), (false, false)]), None);
    assert_eq!(first_complete(&vec![]), None);
    assert_eq!(
        ASSETS_NOT_FOUND,
        "Vencord assets (Vencord.js / Vencord.css) not found in any resource location"
    );
}
