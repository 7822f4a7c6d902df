use base64::Engine;
use taurcord::bootstrap::{
    assemble_launcher, assemble_import, assemble_theme_puts, build_bootstrap_scripts, post_script,
    VencordAssets, CSP_RETRY, MIGRATION_FLAG, MIGRATION_GUARD, MIGRATION_MARK, CSS_HOOK, CSS_LOADER_CLOSE, CSS_LOADER_OPEN, DEBUG_BADGE, DONE_FN,
    LAUNCHER_CLOSE, LAUNCHER_OPEN, GO_FN, GO_NOW, IDB_FN, IMPORT_FINISH, OPS_DECL, POST_LOADER_CLOSE,
    POST_LOADER_OPEN, THEMES_CLOSE, THEMES_OPEN, TITLEBAR_FN, TITLEBAR_HOOK,
};
use taurcord::migration::VencordMigration;

fn b64(s: &str) -> String {
    base64::engine::general_purpose::STANDARD.encode(s.as_bytes())
}

fn expr(s: &str) -> String {
    format!("decodeURIComponent(escape(atob('{}')))", b64(s))
}

fn post(css_b64: &str, debug: bool) -> String {
    let mut p = format!(
        "try{{window.postMessage({{type:'vencord:meta',meta:{{EXTENSION_VERSION:'1.15.2',EXTENSION_BASE_URL:'',RENDERER_CSS_URL:'data:text/css;base64,{css_b64}'}}}},'*');}}catch(e){{}}"
    );
    if debug {
        p.push_str(DEBUG_BADGE);
    }
    p
}

fn launcher(css: &str, debug: bool, import: Option<&str>) -> String {
    let css_b64 = b64(css);
    let post_b64 = b64(&post(&css_b64, debug));
    let mut g = String::new();
    g.push_str(LAUNCHER_OPEN);
    g.push_str(POST_LOADER_OPEN);
    g.push_str(&post_b64);
    g.push_str(POST_LOADER_CLOSE);
    g.push_str(GO_FN);
    g.push_str(CSS_LOADER_OPEN);
    g.push_str(&css_b64);
    g.push_str(CSS_LOADER_CLOSE);
    g.push_str(CSS_HOOK);
    g.push_str(TITLEBAR_FN);
    g.push_str(TITLEBAR_HOOK);
    g.push_str(CSP_RETRY);
    g.push_str(import.unwrap_or(GO_NOW));
    g.push_str(LAUNCHER_CLOSE);
    g
}

fn assets() -> VencordAssets {
    VencordAssets { js: "var Vencord={};".to_string(), css: ".vc{color:red}".to_string() }
}

#[test]
fn vencord_build_is_wrapped_verbatim() {
    let (f, _) = build_bootstrap_scripts(&assets(), None, false);
    assert_eq!(f, "function __tcVencord(){var Vencord={};;window.Vencord=Vencord;}");
}

#[test]
fn launcher_without_migration_starts_vencord_at_once() {
    let (_, g) = build_bootstrap_scripts(&assets(), None, false);
    assert_eq!(g, launcher(".vc{color:red}", false, None));
    assert!(g.starts_with("(function(){"));
    assert!(g.ends_with("tcGo();})();"));
}

#[test]
fn debug_launcher_carries_badge() {
    let (_, release) = build_bootstrap_scripts(&assets(), None, false);
    let (_, debug) = build_bootstrap_scripts(&assets(), None, true);
    assert_eq!(debug, launcher(".vc{color:red}", true, None));
    assert_ne!(release, debug);
}

#[test]
fn launcher_with_migration_imports_everything() {
    let m = VencordMigration {
        settings: "{\"a\":1}".to_string(),
        quick_css: "body{}".to_string(),
        themes: vec![("it's.css".to_string(), "x{}".to_string())],
    };
    let (_, g) = build_bootstrap_scripts(&assets(), Some(&m), false);
    let import = format!(
        "{OPS_DECL}{DONE_FN}{IDB_FN}{MIGRATION_GUARD}try{{localStorage.setItem('VencordSettings',{});}}catch(e){{}}tcIdb('VencordData','VencordStore',function(s){{s.put({},'VencordQuickCss');}});{THEMES_OPEN}s.put({},'it\\'s.css');{THEMES_CLOSE}{MIGRATION_MARK}{IMPORT_FINISH}",
        expr("{\"a\":1}"),
        expr("body{}"),
        expr("x{}")
    );
    assert_eq!(g, launcher(".vc{color:red}", false, Some(&import)));
}

#[test]
fn blank_quick_css_and_no_themes_are_not_written() {
    let m = VencordMigration {
        settings: "{}".to_string(),
        quick_css: " \n\t\u{3000}".to_string(),
        themes: vec![],
    };
    let (_, g) = build_bootstrap_scripts(&assets(), Some(&m), false);
    let import = format!(
        "{OPS_DECL}{DONE_FN}{IDB_FN}{MIGRATION_GUARD}try{{localStorage.setItem('VencordSettings',{});}}catch(e){{}}{MIGRATION_MARK}{IMPORT_FINISH}",
        expr("{}")
    );
    assert_eq!(g, launcher(".vc{color:red}", false, Some(&import)));
    assert!(!g.contains("VencordQuickCss"));
    assert!(!g.contains("VencordThemeData"));
}

#[test]
fn post_script_exact() {
    assert_eq!(post_script("QQ==", false), post("QQ==", false));
    assert_eq!(post_script("QQ==", true), post("QQ==", true));
}

#[test]
fn assemble_launcher_exact() {
    assert_eq!(
        assemble_launcher("Y3Nz", "cG9zdA==", None),
        format!(
            "{LAUNCHER_OPEN}{POST_LOADER_OPEN}cG9zdA=={POST_LOADER_CLOSE}{GO_FN}{CSS_LOADER_OPEN}Y3Nz{CSS_LOADER_CLOSE}{CSS_HOOK}{TITLEBAR_FN}{TITLEBAR_HOOK}{CSP_RETRY}tcGo();}})();"
        )
    );
    let with_import = assemble_launcher("Y3Nz", "cG9zdA==", Some("IMPORT;"));
    assert!(with_import.ends_with("IMPORT;})();"));
}

#[test]
fn assemble_import_exact() {
    let themes = vec![("a.css".to_string(), "QQ==".to_string()), ("b\\.css".to_string(), "Qg==".to_string())];
    let got = assemble_import("e30=", Some("Ym9keXt9"), &themes);
    let expected = format!(
        "{OPS_DECL}{DONE_FN}{IDB_FN}{MIGRATION_GUARD}try{{localStorage.setItem('VencordSettings',decodeURIComponent(escape(atob('e30='))));}}catch(e){{}}tcIdb('VencordData','VencordStore',function(s){{s.put(decodeURIComponent(escape(atob('Ym9keXt9'))),'VencordQuickCss');}});{THEMES_OPEN}s.put(decodeURIComponent(escape(atob('QQ=='))),'a.css');s.put(decodeURIComponent(escape(atob('Qg=='))),'b\\\\.css');{THEMES_CLOSE}{MIGRATION_MARK}{IMPORT_FINISH}"
    );
    assert_eq!(got, expected);
}

#[test]
fn assemble_theme_puts_in_order() {
    let themes = vec![("x.css".to_string(), "eA==".to_string()), ("y.css".to_string(), "eQ==".to_string())];
    assert_eq!(
        assemble_theme_puts(&themes),
        "s.put(decodeURIComponent(escape(atob('eA=='))),'x.css');s.put(decodeURIComponent(escape(atob('eQ=='))),'y.css');"
    );
    assert_eq!(assemble_theme_puts(&vec![]), "");
}

#[test]
fn launcher_literals() {
    assert_eq!(LAUNCHER_OPEN, "(function(){");
    assert_eq!(GO_NOW, "tcGo();");
    assert_eq!(LAUNCHER_CLOSE, "})();");
    assert_eq!(OPS_DECL, "var ops=0;");
    assert_eq!(IMPORT_FINISH, "if(ops<=0)tcGo();setTimeout(tcGo,1500);");
}

#[test]
fn import_is_guarded_by_the_migration_flag() {
    let m = VencordMigration {
        settings: "{}".to_string(),
        quick_css: "body{}".to_string(),
        themes: vec![("a.css".to_string(), "a{}".to_string())],
    };
    let (_, l) = build_bootstrap_scripts(&assets(), Some(&m), false);
    assert_eq!(MIGRATION_FLAG, "__taurcordVencordMigrated");
    let guard = l.find("localStorage.getItem('__taurcordVencordMigrated')!==null").unwrap();
    let skip = l.find("if(!tcMigrated){").unwrap();
    let settings = l.find("localStorage.setItem('VencordSettings'").unwrap();
    let quick_css = l.find("'VencordQuickCss'").unwrap();
    let themes = l.find("VencordThemeData").unwrap();
    assert!(guard < skip && skip < settings && settings < quick_css && quick_css < themes);
    let mark = l.find("try{localStorage.setItem('__taurcordVencordMigrated','1');}catch(e){}}").unwrap();
    assert!(themes < mark);
    assert!(l.ends_with("if(ops<=0)tcGo();setTimeout(tcGo,1500);})();"));
}

#[test]
fn no_migration_means_no_flag_handling() {
    let (_, l) = build_bootstrap_scripts(&assets(), None, false);
    assert!(!l.contains("__taurcordVencordMigrated"));
}
