use taurcord::migration::{has_css_extension, load_vencord_migration, ThemeFile};

fn file(name: &str, content: Option<&str>) -> ThemeFile {
    ThemeFile { file_name: name.to_string(), content: content.map(|c| c.to_string()) }
}

#[test]
fn css_extension_follows_path_extension() {
    assert!(has_css_extension("a.css"));
    assert!(has_css_extension("midnight.theme.css"));
    assert!(has_css_extension("..css"));
    assert!(has_css_extension(".hidden.css"));
    assert!(!has_css_extension(".css"));
    assert!(!has_css_extension("css"));
    assert!(!has_css_extension("a.CSS"));
    assert!(!has_css_extension("a.css.bak"));
    assert!(!has_css_extension("a.scss"));
    assert!(!has_css_extension(""));
}

#[test]
fn no_settings_means_nothing_to_import() {
    assert!(load_vencord_migration(None, Some("body{}".to_string()), vec![file("a.css", Some("x"))]).is_none());
}

#[test]
fn missing_quick_css_is_empty() {
    let m = load_vencord_migration(Some("{}".to_string()), None, vec![]).unwrap();
    assert_eq!(m.settings, "{}");
    assert_eq!(m.quick_css, "");
    assert!(m.themes.is_empty());
}

#[test]
fn imports_settings_quick_css_and_css_themes() {
    let m = load_vencord_migration(
        Some("{\"plugins\":{}}".to_string()),
        Some("body{color:red}".to_string()),
        vec![
            file("midnight.theme.css", Some("a{}")),
            file("notes.txt", Some("not a theme")),
            file("broken.css", None),
            file(".css", Some("hidden")),
            file("other.css", Some("b{}")),
        ],
    )
    .unwrap();
    assert_eq!(m.settings, "{\"plugins\":{}}");
    assert_eq!(m.quick_css, "body{color:red}");
    assert_eq!(
        m.themes,
        vec![
            ("midnight.theme.css".to_string(), "a{}".to_string()),
            ("other.css".to_string(), "b{}".to_string()),
        ]
    );
}
