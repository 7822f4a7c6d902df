use taurcord::navigation::{
    is_discord_url, navigation_action, new_window_opens_externally, start_url,
    system_browser_command, UrlTarget, DISCORD_URL,
};

fn target(scheme: &str, host: Option<&str>) -> UrlTarget {
    UrlTarget { scheme: scheme.to_string(), host: host.map(|h| h.to_string()) }
}

#[test]
fn discord_hosts_are_allowed() {
    for host in [
        "discord.com",
        "ptb.discord.com",
        "canary.discord.com",
        "discord.gg",
        "x.discord.gg",
        "discordapp.com",
        "cdn.discordapp.com",
    ] {
        assert!(is_discord_url(&target("https", Some(host))), "{host}");
    }
}

#[test]
fn other_hosts_are_refused() {
    for host in [
        "evil-discord.com",
        "discord.com.evil.net",
        "discord.co",
        "notdiscord.gg",
        "example.com",
        "",
        ".discord.org",
    ] {
        assert!(!is_discord_url(&target("https", Some(host))), "{host}");
    }
}

#[test]
fn only_https_is_allowed() {
    assert!(!is_discord_url(&target("http", Some("discord.com"))));
    assert!(!is_discord_url(&target("wss", Some("discord.com"))));
}

#[test]
fn url_without_host_is_refused() {
    assert!(!is_discord_url(&target("https", None)));
}

#[test]
fn discord_navigation_stays_in_app() {
    let action = navigation_action(false, "", "https://discord.com/channels/@me", &target("https", Some("discord.com")));
    assert!(action.allow);
    assert!(!action.open_externally);
}

#[test]
fn external_navigation_opens_browser() {
    let action = navigation_action(false, "https://discord.com/app", "https://github.com/", &target("https", Some("github.com")));
    assert!(!action.allow);
    assert!(action.open_externally);
}

#[test]
fn debug_start_prefix_stays_in_app() {
    let action = navigation_action(
        true,
        "http://localhost:1420/",
        "http://localhost:1420/app",
        &target("http", Some("localhost")),
    );
    assert!(action.allow);
    assert!(!action.open_externally);
}

#[test]
fn start_prefix_counts_only_in_debug_builds() {
    let action = navigation_action(
        false,
        "http://localhost:1420/",
        "http://localhost:1420/app",
        &target("http", Some("localhost")),
    );
    assert!(!action.allow);
    assert!(action.open_externally);
}

#[test]
fn empty_start_prefix_matches_nothing() {
    let action = navigation_action(true, "", "https://example.com/", &target("https", Some("example.com")));
    assert!(!action.allow);
    assert!(action.open_externally);
}

#[test]
fn new_windows_outside_discord_open_in_browser() {
    assert!(new_window_opens_externally(&target("https", Some("youtube.com"))));
    assert!(!new_window_opens_externally(&target("https", Some("discord.gg"))));
}

#[test]
fn start_url_defaults_to_discord_app() {
    assert_eq!(start_url(None, false), DISCORD_URL);
    assert_eq!(start_url(None, true), "https://discord.com/app");
}

#[test]
fn start_url_override_only_in_debug() {
    assert_eq!(start_url(Some("http://localhost:1420/".to_string()), true), "http://localhost:1420/");
    assert_eq!(start_url(Some("http://localhost:1420/".to_string()), false), "https://discord.com/app");
}

#[test]
fn browser_command_on_windows() {
    assert_eq!(
        system_browser_command("https://example.com/", true),
        vec!["cmd", "/C", "start", "", "https://example.com/"]
    );
}

#[test]
fn browser_command_elsewhere() {
    assert_eq!(system_browser_command("https://example.com/", false), vec!["xdg-open", "https://example.com/"]);
}
