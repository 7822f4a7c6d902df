use vstd::prelude::*;
use crate::text::{ends_with, has_prefix, has_suffix, starts_with, str_eq};

verus! {

/// What the navigation rules read of a URL: its scheme and its host, if it has one.
pub struct UrlTarget {
    pub scheme: String,
    pub host: Option<String>,
}

/// The page the main window opens when no other is asked for.
pub const DISCORD_URL: &'static str = "https://discord.com/app";

/// A host of Discord: `discord.com`, `discord.gg` or `discordapp.com`, or a subdomain of one.
pub open spec fn is_discord_host(host: Seq<char>) -> bool {
    ||| host == "discord.com"@
    ||| has_suffix(host, ".discord.com"@)
    ||| host == "discord.gg"@
    ||| has_suffix(host, ".discord.gg"@)
    ||| host == "discordapp.com"@
    ||| has_suffix(host, ".discordapp.com"@)
}

/// An `https` URL whose host is a Discord host.
pub open spec fn is_discord_target(url: UrlTarget) -> bool {
    &&& url.scheme@ == "https"@
    &&& url.host matches Some(h) && is_discord_host(h@)
}

fn is_discord_host_name(host: &str) -> (r: bool)
    ensures
        r == is_discord_host(host@),
{
    str_eq(host, "discord.com") || ends_with(host, ".discord.com") || str_eq(host, "discord.gg")
        || ends_with(host, ".discord.gg") || str_eq(host, "discordapp.com") || ends_with(
        host,
        ".discordapp.com",
    )
}

/// Whether a URL belongs to Discord and may be shown in the app: it must use `https` and its
/// host must be `discord.com`, `discord.gg` or `discordapp.com` or a subdomain of one of them.
pub fn is_discord_url(url: &UrlTarget) -> (r: bool)
    ensures
        r == is_discord_target(*url),
{
    if !str_eq(url.scheme.as_str(), "https") {
        return false;
    }
    match &url.host {
        Some(host) => is_discord_host_name(host.as_str()),
        None => false,
    }
}

/// What to do with a navigation of the main window.
pub struct NavigationAction {
    /// The webview follows the navigation.
    pub allow: bool,
    /// The URL is handed to the system browser.
    pub open_externally: bool,
}

/// In a debug build, a URL under the start page stays in the app whatever its host.
pub open spec fn is_under_debug_start(debug: bool, start_url: Seq<char>, url: Seq<char>) -> bool {
    debug && start_url.len() > 0 && has_prefix(url, start_url)
}

/// Decides a navigation of the main window to `url` (whose scheme and host are `target`):
/// pages under the start page of a debug build and Discord pages stay in the app; any other
/// page is refused there and opened in the system browser.
pub fn navigation_action(debug: bool, start_url: &str, url: &str, target: &UrlTarget) -> (action:
    NavigationAction)
    ensures
        action.allow != action.open_externally,
        is_under_debug_start(debug, start_url@, url@) ==> action.allow && !action.open_externally,
        !is_under_debug_start(debug, start_url@, url@) ==> {
            &&& action.allow == is_discord_target(*target)
            &&& action.open_externally == !action.allow
        },
{
    if debug && start_url.unicode_len() > 0 && starts_with(url, start_url) {
        return NavigationAction { allow: true, open_externally: false };
    }
    let allowed = is_discord_url(target);
    NavigationAction { allow: allowed, open_externally: !allowed }
}

/// Decides a request to open a new window at a URL: the window is never created; a URL
/// outside Discord is opened in the system browser instead. Returns whether to open it there.
pub fn new_window_opens_externally(target: &UrlTarget) -> (open_externally: bool)
    ensures
        open_externally == !is_discord_target(*target),
{
    !is_discord_url(target)
}

/// The page to start on: the override of a debug build when one is given, else Discord's app.
pub fn start_url(override_url: Option<String>, debug: bool) -> (url: String)
    ensures
        url@ == (match override_url {
            Some(u) if debug => u@,
            _ => DISCORD_URL@,
        }),
{
    match override_url {
        Some(u) if debug => u,
        _ => String::from_str(DISCORD_URL),
    }
}

/// The command line that opens `url` in the system browser: `cmd /C start "" url` on
/// Windows, `xdg-open url` elsewhere.
pub fn system_browser_command(url: &str, windows: bool) -> (command: Vec<String>)
    ensures
        windows ==> command@.len() == 5 && command@[0]@ == "cmd"@ && command@[1]@ == "/C"@
            && command@[2]@ == "start"@ && command@[3]@ == ""@ && command@[4]@ == url@,
        !windows ==> command@.len() == 2 && command@[0]@ == "xdg-open"@ && command@[1]@ == url@,
{
    let mut command: Vec<String> = Vec::new();
    if windows {
        command.push(String::from_str("cmd"));
        command.push(String::from_str("/C"));
        command.push(String::from_str("start"));
        command.push(String::from_str(""));
    } else {
        command.push(String::from_str("xdg-open"));
    }
    command.push(String::from_str(url));
    command
}

} // verus!

verus! {

/// `host` is `base` itself or a subdomain of it: it ends with a `.` followed by `base`.
pub open spec fn is_domain_or_subdomain(host: Seq<char>, base: Seq<char>) -> bool {
    host == base || (host.len() > base.len() && host[host.len() - base.len() - 1] == '.'
        && host.subrange(host.len() - base.len(), host.len() as int) == base)
}

proof fn lemma_dot_suffix(host: Seq<char>, base: Seq<char>, dotted: Seq<char>)
    requires
        dotted == seq!['.'] + base,
    ensures
        has_suffix(host, dotted) <==> (host.len() > base.len() && host[host.len() - base.len() - 1]
            == '.' && host.subrange(host.len() - base.len(), host.len() as int) == base),
{
    let n = host.len() as int;
    let m = base.len() as int;
    if has_suffix(host, dotted) {
        assert(host.skip(n - m - 1)[0] == host[n - m - 1]);
        assert(host.subrange(n - m, n) =~= host.skip(n - m - 1).skip(1));
        assert(dotted.skip(1) =~= base);
    }
    if host.len() > base.len() && host[n - m - 1] == '.' && host.subrange(n - m, n) == base {
        assert(host.skip(n - m - 1) =~= dotted) by {
            assert forall|i: int| 0 <= i < m + 1 implies host.skip(n - m - 1)[i] == dotted[i] by {
                if i > 0 {
                    assert(host.subrange(n - m, n)[i - 1] == host[n - m - 1 + i]);
                }
            }
        }
    }
}

/// A URL is a Discord URL exactly when its scheme is `https` and its host is `discord.com`,
/// `discord.gg` or `discordapp.com`, or a subdomain of one of them; every other host (such
/// as `media.discordapp.net` or `evil-discord.com`) is refused.
pub proof fn law_discord_urls_are_exactly_discord_domains(url: UrlTarget)
    ensures
        is_discord_target(url) <==> {
            &&& url.scheme@ == seq!['h', 't', 't', 'p', 's']
            &&& url.host matches Some(h) && (is_domain_or_subdomain(h@, "discord.com"@)
                || is_domain_or_subdomain(h@, "discord.gg"@) || is_domain_or_subdomain(
                h@,
                "discordapp.com"@,
            ))
        },
{
    reveal_strlit("https");
    reveal_strlit("discord.com");
    reveal_strlit(".discord.com");
    reveal_strlit("discord.gg");
    reveal_strlit(".discord.gg");
    reveal_strlit("discordapp.com");
    reveal_strlit(".discordapp.com");
    assert("https"@ =~= seq!['h', 't', 't', 'p', 's']);
    assert(".discord.com"@ =~= seq!['.'] + "discord.com"@);
    assert(".discord.gg"@ =~= seq!['.'] + "discord.gg"@);
    assert(".discordapp.com"@ =~= seq!['.'] + "discordapp.com"@);
    match url.host {
        Some(h) => {
            lemma_dot_suffix(h@, "discord.com"@, ".discord.com"@);
            lemma_dot_suffix(h@, "discord.gg"@, ".discord.gg"@);
            lemma_dot_suffix(h@, "discordapp.com"@, ".discordapp.com"@);
        },
        None => {},
    }
}

/// The debug-build exception covers only URLs under the start page: when it applies, the
/// build is a debug build, the start URL is not empty and the URL begins with it. So a URL
/// that does not begin with the start URL is kept in the app exactly when it is a Discord URL.
pub proof fn law_debug_exception_needs_start_prefix(debug: bool, start_url: Seq<char>, url: Seq<
    char,
>)
    ensures
        is_under_debug_start(debug, start_url, url) ==> {
            &&& debug
            &&& start_url.len() > 0
            &&& start_url.len() <= url.len()
            &&& forall|i: int| 0 <= i < start_url.len() ==> url[i] == #[trigger] start_url[i]
        },
{
    if is_under_debug_start(debug, start_url, url) {
        assert forall|i: int| 0 <= i < start_url.len() implies url[i] == #[trigger] start_url[i] by {
            assert(url.take(start_url.len() as int)[i] == url[i]);
        }
    }
}

} // verus!
