use vstd::prelude::*;

verus! {

/// Browser arguments of the WebView2 window: no Edge pop-up UI or SmartScreen, autoplay
/// without a user gesture, and no web security (so that Vencord can fetch remote themes).
pub const BROWSER_ARGS: &'static str = "--disable-features=msWebOOUI,msPdfOOUI,msSmartScreenProtection --autoplay-policy=no-user-gesture-required --disable-web-security";

/// Added to the browser arguments in debug builds: the remote debugging port.
pub const DEBUG_BROWSER_ARGS: &'static str = " --remote-debugging-port=9223";

/// The DevTools protocol method, and its parameters, that make the page ignore its CSP.
pub const BYPASS_CSP_METHOD: &'static str = "Page.setBypassCSP";

/// Parameters of `BYPASS_CSP_METHOD`.
pub const BYPASS_CSP_PARAMS: &'static str = "{\"enabled\":true}";

/// The extra browser arguments of the window (the debug port only in debug builds).
pub fn browser_args(debug: bool) -> (args: String)
    ensures
        args@ == BROWSER_ARGS@ + if debug {
            DEBUG_BROWSER_ARGS@
        } else {
            Seq::empty()
        },
{
    let mut args = String::from_str(BROWSER_ARGS);
    if debug {
        args.append(DEBUG_BROWSER_ARGS);
    }
    proof {
        assert(args@ =~= BROWSER_ARGS@ + if debug {
            DEBUG_BROWSER_ARGS@
        } else {
            Seq::<char>::empty()
        });
    }
    args
}

/// The kinds of permission a page can ask the WebView2 runtime for.
#[derive(Clone, Copy, PartialEq, Eq, Structural, Debug)]
pub enum PermissionKind {
    Unknown,
    Microphone,
    Camera,
    Geolocation,
    Notifications,
    OtherSensors,
    ClipboardRead,
    MultipleAutomaticDownloads,
    FileReadWrite,
    Autoplay,
    LocalFonts,
    MidiSystemExclusiveMessages,
    WindowManagement,
}

/// The permissions that voice chat and notifications need, which are granted without asking.
pub open spec fn is_auto_allowed(kind: PermissionKind) -> bool {
    kind == PermissionKind::Microphone || kind == PermissionKind::Camera || kind
        == PermissionKind::Notifications
}

/// Whether a permission request is granted at once: microphone, camera and notifications are;
/// every other request is left to the runtime's default handling.
pub fn auto_allows(kind: PermissionKind) -> (allow: bool)
    ensures
        allow == is_auto_allowed(kind),
{
    match kind {
        PermissionKind::Microphone | PermissionKind::Camera | PermissionKind::Notifications => true,
        _ => false,
    }
}

} // verus!
