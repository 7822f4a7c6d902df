use vstd::prelude::*;
use vstd::utf8::encode_utf8;
use crate::encoding::{
    base64_encode, base64_len, is_base64_text, js_b64_expr_text, js_b64_expression, js_quoted,
    quote_js_name, standard_base64, within_isize, lemma_base64_ascii, lemma_base64_len_bound,
    lemma_encode_utf8_concat, lemma_encode_utf8_len, lemma_within_isize_fits,
};
use crate::migration::VencordMigration;
use crate::text::{has_suffix, is_blank, is_blank_text, is_white_space};

verus! {

/// The Vencord browser build: its script and its style sheet.
pub struct VencordAssets {
    pub js: String,
    pub css: String,
}

/// The Vencord release that the bundled browser build is.
pub const VENCORD_VERSION: &'static str = "1.15.2";

/// Start of the message that tells the browser build its extension metadata.
pub const POST_OPEN: &'static str = "try{window.postMessage({type:'vencord:meta',meta:{EXTENSION_VERSION:'";

/// Between the version and the base64 style sheet of that message.
pub const POST_MID: &'static str = "',EXTENSION_BASE_URL:'',RENDERER_CSS_URL:'data:text/css;base64,";

/// End of that message.
pub const POST_CLOSE: &'static str = "'}},'*');}catch(e){}";

/// Opens the write of the imported settings to local storage.
pub const SETTINGS_OPEN: &'static str = "try{localStorage.setItem('VencordSettings',";

/// Closes the write of the imported settings.
pub const SETTINGS_CLOSE: &'static str = ");}catch(e){}";

/// Opens the write of the imported QuickCSS.
pub const QUICK_CSS_OPEN: &'static str = "tcIdb('VencordData','VencordStore',function(s){s.put(";

/// Closes the write of the imported QuickCSS.
pub const QUICK_CSS_CLOSE: &'static str = ",'VencordQuickCss');});";

/// Opens the write of one theme.
pub const THEME_PUT_OPEN: &'static str = "s.put(";

/// Between a theme's contents and its name.
pub const THEME_PUT_SEP: &'static str = ",";

/// Closes the write of one theme.
pub const THEME_PUT_CLOSE: &'static str = ");";

/// Opens the function that runs the Vencord browser build when called.
pub const FN_OPEN: &'static str = "function __tcVencord(){";

/// Closes that function, publishing `Vencord` on `window`.
pub const FN_CLOSE: &'static str = ";window.Vencord=Vencord;}";

/// Opens the launcher script's outer function.
pub const LAUNCHER_OPEN: &'static str = "(function(){";

/// Starts `tcPost`, which runs the base64 post-start script that follows.
pub const POST_LOADER_OPEN: &'static str = "function tcPost(){var s=document.createElement('script');s.textContent=decodeURIComponent(escape(atob('";

/// Ends `tcPost`.
pub const POST_LOADER_CLOSE: &'static str = "')));(document.head||document.documentElement).appendChild(s);}";

/// `tcGo`: starts Vencord once, then runs `tcPost`.
pub const GO_FN: &'static str = "function tcGo(){if(window.__TC_DONE__)return;window.__TC_DONE__=true;try{__tcVencord();}catch(e){try{console.error('[Taurcord] Vencord failed:',e);}catch(_){}}tcPost();}";

/// Starts `tcAddCss`, which adds the base64 Vencord style sheet that follows.
pub const CSS_LOADER_OPEN: &'static str = "function tcAddCss(){try{var s=document.createElement('style');s.id='taurcord-vencord-css';s.textContent=decodeURIComponent(escape(atob('";

/// Ends `tcAddCss`.
pub const CSS_LOADER_CLOSE: &'static str = "')));(document.head||document.documentElement).appendChild(s);}catch(e){try{console.error('[Taurcord] css inject failed:',e);}catch(_){}}}";

/// Runs `tcAddCss` now, or once the document is loaded.
pub const CSS_HOOK: &'static str = "if(document.head||document.documentElement){tcAddCss();}else{document.addEventListener('DOMContentLoaded',tcAddCss,{once:true});}";

/// `tcTitlebar`: draws the in-app titlebar and wires its buttons.
pub const TITLEBAR_FN: &'static str = "function tcTitlebar(){if(document.getElementById('taurcord-titlebar'))return;var st=document.createElement('style');st.id='taurcord-titlebar-css';st.textContent='#app-mount{top:36px!important;height:calc(100% - 36px)!important}#taurcord-titlebar{position:fixed;top:0;left:0;right:0;height:36px;z-index:6000;user-select:none;-webkit-user-select:none}#taurcord-titlebar .tcb{position:absolute;top:0;width:46px;height:36px;display:flex;align-items:center;justify-content:center;color:var(--interactive-normal,#b5bac1);cursor:default}#taurcord-titlebar .tcb:hover{color:var(--interactive-hover,#dbdee1)}#taurcord-titlebar .tcb-close:hover{color:#fff;background:var(--status-danger,#da373c)}#taurcord-titlebar .tcb svg{width:10px;height:10px}#taurcord-titlebar .tcb-min{right:92px}#taurcord-titlebar .tcb-max{right:46px}#taurcord-titlebar .tcb-close{right:0}';(document.head||document.documentElement).appendChild(st);var bar=document.createElement('div');bar.id='taurcord-titlebar';bar.innerHTML='<div class=\"tcb tcb-min\"><svg viewBox=\"0 0 10 10\"><path d=\"M0 5h10\" stroke=\"currentColor\"/></svg></div><div class=\"tcb tcb-max\"><svg class=\"tc-max-g\" viewBox=\"0 0 10 10\"><rect x=\"0.5\" y=\"0.5\" width=\"9\" height=\"9\" fill=\"none\" stroke=\"currentColor\"/></svg><svg class=\"tc-res-g\" viewBox=\"0 0 10 10\" style=\"display:none\"><path d=\"M2.5 2.5h5v5\" fill=\"none\" stroke=\"currentColor\"/><rect x=\"0.5\" y=\"4.5\" width=\"5\" height=\"5\" fill=\"#00000000\" stroke=\"currentColor\"/></svg></div><div class=\"tcb tcb-close\"><svg viewBox=\"0 0 10 10\"><path d=\"M0 0l10 10M10 0L0 10\" stroke=\"currentColor\"/></svg></div>';(document.body||document.documentElement).appendChild(bar);var inv=function(c){try{window.__TAURI_INTERNALS__.invoke(c)}catch(e){}};var mg=bar.querySelector('.tc-max-g'),rg=bar.querySelector('.tc-res-g');function syncMax(){var m=window.innerWidth>=screen.availWidth-24&&window.innerHeight>=screen.availHeight-24;mg.style.display=m?'none':'block';rg.style.display=m?'block':'none';}bar.querySelector('.tcb-min').addEventListener('click',function(){inv('plugin:window|minimize')});bar.querySelector('.tcb-max').addEventListener('click',function(){inv('plugin:window|toggle_maximize');setTimeout(syncMax,150)});bar.querySelector('.tcb-close').addEventListener('click',function(){inv('plugin:window|close')});bar.addEventListener('mousedown',function(e){if(e.button===0&&e.target===bar){inv('plugin:window|start_dragging')}});bar.addEventListener('dblclick',function(e){if(e.target===bar){inv('plugin:window|toggle_maximize');setTimeout(syncMax,150)}});window.addEventListener('resize',syncMax);syncMax();}";

/// Runs `tcTitlebar` now, or once the body exists.
pub const TITLEBAR_HOOK: &'static str = "if(document.body){tcTitlebar();}else{document.addEventListener('DOMContentLoaded',tcTitlebar,{once:true});}";

/// Reloads the page once when the content security policy blocks a data URL.
pub const CSP_RETRY: &'static str = "try{if(!sessionStorage.getItem('__tcCspRetry')){fetch('data:text/css;base64,LnR7fQ==').catch(function(){sessionStorage.setItem('__tcCspRetry','1');location.reload();});}}catch(e){}";

/// Counter of pending storage writes of the import.
pub const OPS_DECL: &'static str = "var ops=0;";

/// `tcDone`: one write finished; start Vencord when none is left.
pub const DONE_FN: &'static str = "function tcDone(){ops--;if(ops<=0)tcGo();}";

/// `tcIdb`: runs a write on an IndexedDB object store and counts it.
pub const IDB_FN: &'static str = "function tcIdb(db,store,cb){ops++;var r=indexedDB.open(db);r.onupgradeneeded=function(){r.result.createObjectStore(store);};r.onsuccess=function(){try{var t=r.result.transaction(store,'readwrite');cb(t.objectStore(store));t.oncomplete=function(){r.result.close();tcDone();};}catch(e){tcDone();}};r.onerror=function(){tcDone();};}";

/// The local storage key that records that the desktop data was imported; deleting it makes
/// the next launch import again.
pub const MIGRATION_FLAG: &'static str = "__taurcordVencordMigrated";

/// Reads `MIGRATION_FLAG` and opens the block of writes, which runs only when the flag is
/// absent.
pub const MIGRATION_GUARD: &'static str = "var tcMigrated=false;try{tcMigrated=localStorage.getItem('__taurcordVencordMigrated')!==null;}catch(e){}if(!tcMigrated){";

/// Sets `MIGRATION_FLAG` once the writes are under way, and closes the block of writes.
pub const MIGRATION_MARK: &'static str = "try{localStorage.setItem('__taurcordVencordMigrated','1');}catch(e){}}";

/// Opens the write of the imported themes.
pub const THEMES_OPEN: &'static str = "tcIdb('VencordThemes','VencordThemeData',function(s){";

/// Closes the write of the imported themes.
pub const THEMES_CLOSE: &'static str = "});";

/// Starts Vencord when no write is pending, and after a delay in any case.
pub const IMPORT_FINISH: &'static str = "if(ops<=0)tcGo();setTimeout(tcGo,1500);";

/// Starts Vencord at once (nothing to import).
pub const GO_NOW: &'static str = "tcGo();";

/// Closes and calls the launcher script's outer function.
pub const LAUNCHER_CLOSE: &'static str = "})();";

/// Debug builds only: a badge that reports whether Vencord, IPC, plugins and themes loaded.
pub const DEBUG_BADGE: &'static str = "window.addEventListener('DOMContentLoaded',function(){setTimeout(function(){try{var b=document.createElement('div');b.style.cssText='position:fixed;bottom:8px;left:8px;z-index:999999;background:#000c;color:#fff;font:12px monospace;padding:4px 8px;border-radius:6px;pointer-events:none;';document.body.appendChild(b);var parts=['Vencord: '+(window.Vencord?'OK':'FAIL')];parts.push('ipc: '+(window.__TAURI_INTERNALS__?'yes':'NO'));function render(){b.textContent=parts.join(' | ');}var v=window.Vencord;if(v){try{var n=0,tot=0,ps=v.Plugins&&v.Plugins.plugins;if(ps)for(var k in ps){tot++;if(ps[k].started)n++;}parts.push('plugins '+n+'/'+tot);}catch(e){}try{if(window.VencordNative&&VencordNative.themes)VencordNative.themes.getThemesList().then(function(l){parts.push('themes '+l.length);render();}).catch(function(){});}catch(e){}}}render();}catch(_){}},6000);});";

/// The first initialization script: the Vencord build wrapped in a function `__tcVencord`.
pub open spec fn vencord_function_text(js: Seq<char>) -> Seq<char> {
    FN_OPEN@ + js + FN_CLOSE@
}

/// The script run after Vencord starts: it posts the extension metadata message (whose
/// style sheet URL carries `css_b64`) and, in debug builds, adds the status badge.
pub open spec fn post_script_text(css_b64: Seq<char>, debug: bool) -> Seq<char> {
    POST_OPEN@ + VENCORD_VERSION@ + POST_MID@ + css_b64 + POST_CLOSE@ + if debug {
        DEBUG_BADGE@
    } else {
        Seq::empty()
    }
}

/// The characters of each `(first, second)` pair of strings.
pub open spec fn pairs_view(pairs: Seq<(String, String)>) -> Seq<(Seq<char>, Seq<char>)> {
    Seq::new(pairs.len(), |i: int| (pairs[i].0@, pairs[i].1@))
}

/// Themes as `(name, base64 of contents)`.
pub open spec fn encoded_themes(themes: Seq<(String, String)>) -> Seq<(Seq<char>, Seq<char>)> {
    Seq::new(themes.len(), |i: int| (themes[i].0@, standard_base64(themes[i].1@)))
}

/// The writes of the imported themes, given as `(name, base64 of contents)`: one
/// `s.put(contents, 'name');` each, in order.
pub open spec fn theme_puts_text(themes: Seq<(Seq<char>, Seq<char>)>) -> Seq<char>
    decreases themes.len(),
{
    if themes.len() == 0 {
        Seq::empty()
    } else {
        let t = themes.last();
        theme_puts_text(themes.drop_last()) + THEME_PUT_OPEN@ + js_b64_expr_text(t.1)
            + THEME_PUT_SEP@ + js_quoted(t.0) + THEME_PUT_CLOSE@
    }
}

/// The writes of the import, from the base64 of the settings, of the QuickCSS (when it is
/// written) and of each theme: the settings always, the QuickCSS when given, the themes
/// unless there are none.
pub open spec fn import_writes_text(
    settings_b64: Seq<char>,
    quick_css_b64: Option<Seq<char>>,
    themes_b64: Seq<(Seq<char>, Seq<char>)>,
) -> Seq<char> {
    SETTINGS_OPEN@ + js_b64_expr_text(settings_b64) + SETTINGS_CLOSE@ + match quick_css_b64 {
        Some(q) => QUICK_CSS_OPEN@ + js_b64_expr_text(q) + QUICK_CSS_CLOSE@,
        None => Seq::empty(),
    } + (if themes_b64.len() == 0 {
        Seq::empty()
    } else {
        THEMES_OPEN@ + theme_puts_text(themes_b64) + THEMES_CLOSE@
    })
}

/// The helpers of the import: the write counter, `tcDone` and `tcIdb`.
pub open spec fn import_setup_text() -> Seq<char> {
    OPS_DECL@ + DONE_FN@ + IDB_FN@
}

/// The import part of the launcher script: its helpers, then, unless `MIGRATION_FLAG` is
/// already set, the writes followed by the setting of the flag; then Vencord starts once no
/// write is pending (at once when nothing was written).
pub open spec fn import_text_from(
    settings_b64: Seq<char>,
    quick_css_b64: Option<Seq<char>>,
    themes_b64: Seq<(Seq<char>, Seq<char>)>,
) -> Seq<char> {
    import_setup_text() + MIGRATION_GUARD@ + import_writes_text(
        settings_b64,
        quick_css_b64,
        themes_b64,
    ) + MIGRATION_MARK@ + IMPORT_FINISH@
}

/// The import part of the launcher script for desktop data `m`; blank QuickCSS is not written.
pub open spec fn import_text(m: VencordMigration) -> Seq<char> {
    import_text_from(
        standard_base64(m.settings@),
        if is_blank_text(m.quick_css@) {
            None
        } else {
            Some(standard_base64(m.quick_css@))
        },
        encoded_themes(m.themes@),
    )
}

/// The launcher script from the base64 of the style sheet and of the post-start script, and the
/// import part, if any: it defines the loaders, adds the style sheet, draws the titlebar,
/// arranges the CSP retry, then imports (or starts Vencord at once).
pub open spec fn launcher_text_from(
    css_b64: Seq<char>,
    post_b64: Seq<char>,
    import: Option<Seq<char>>,
) -> Seq<char> {
    LAUNCHER_OPEN@ + POST_LOADER_OPEN@ + post_b64 + POST_LOADER_CLOSE@ + GO_FN@ + CSS_LOADER_OPEN@
        + css_b64 + CSS_LOADER_CLOSE@ + CSS_HOOK@ + TITLEBAR_FN@ + TITLEBAR_HOOK@ + CSP_RETRY@
        + match import {
        Some(t) => t,
        None => GO_NOW@,
    } + LAUNCHER_CLOSE@
}

/// The second initialization script, which decides when Vencord starts.
pub open spec fn launcher_text(css: Seq<char>, debug: bool, migration: Option<VencordMigration>) -> Seq<
    char,
> {
    let css_b64 = standard_base64(css);
    launcher_text_from(
        css_b64,
        standard_base64(post_script_text(css_b64, debug)),
        match migration {
            Some(m) => Some(import_text(m)),
            None => None,
        },
    )
}

/// Every string of the import is a Rust string (at most `isize::MAX` bytes).
pub open spec fn migration_within_isize(m: VencordMigration) -> bool {
    &&& within_isize(m.settings@)
    &&& within_isize(m.quick_css@)
    &&& forall|i: int| 0 <= i < m.themes@.len() ==> within_isize(#[trigger] m.themes@[i].1@)
}

/// The script run after Vencord starts, for the base64 style sheet `css_b64`.
pub fn post_script(css_b64: &str, debug: bool) -> (post: String)
    ensures
        post@ == post_script_text(css_b64@, debug),
{
    let mut post = String::from_str(POST_OPEN);
    post.append(VENCORD_VERSION);
    post.append(POST_MID);
    post.append(css_b64);
    post.append(POST_CLOSE);
    if debug {
        post.append(DEBUG_BADGE);
    }
    proof {
        assert(post@ =~= post_script_text(css_b64@, debug));
    }
    post
}

proof fn lemma_post_literals_len()
    ensures
        POST_OPEN@.len() + VENCORD_VERSION@.len() + POST_MID@.len() + POST_CLOSE@.len()
            + DEBUG_BADGE@.len() <= 4096,
{
    reveal_strlit("try{window.postMessage({type:'vencord:meta',meta:{EXTENSION_VERSION:'");
    reveal_strlit("1.15.2");
    reveal_strlit("',EXTENSION_BASE_URL:'',RENDERER_CSS_URL:'data:text/css;base64,");
    reveal_strlit("'}},'*');}catch(e){}");
    reveal_strlit("window.addEventListener('DOMContentLoaded',function(){setTimeout(function(){try{var b=document.createElement('div');b.style.cssText='position:fixed;bottom:8px;left:8px;z-index:999999;background:#000c;color:#fff;font:12px monospace;padding:4px 8px;border-radius:6px;pointer-events:none;';document.body.appendChild(b);var parts=['Vencord: '+(window.Vencord?'OK':'FAIL')];parts.push('ipc: '+(window.__TAURI_INTERNALS__?'yes':'NO'));function render(){b.textContent=parts.join(' | ');}var v=window.Vencord;if(v){try{var n=0,tot=0,ps=v.Plugins&&v.Plugins.plugins;if(ps)for(var k in ps){tot++;if(ps[k].started)n++;}parts.push('plugins '+n+'/'+tot);}catch(e){}try{if(window.VencordNative&&VencordNative.themes)VencordNative.themes.getThemesList().then(function(l){parts.push('themes '+l.length);render();}).catch(function(){});}catch(e){}}}render();}catch(_){}},6000);});");
}

proof fn lemma_post_script_fits(css_b64: Seq<char>, n: nat, debug: bool)
    requires
        n <= isize::MAX,
        css_b64.len() == base64_len(n),
        encode_utf8(css_b64).len() == css_b64.len(),
    ensures
        base64_len(encode_utf8(post_script_text(css_b64, debug)).len()) <= usize::MAX,
{
    let a = POST_OPEN@ + VENCORD_VERSION@ + POST_MID@;
    let b = POST_CLOSE@ + if debug {
        DEBUG_BADGE@
    } else {
        Seq::empty()
    };
    assert(post_script_text(css_b64, debug) =~= a + (css_b64 + b));
    lemma_encode_utf8_concat(a, css_b64 + b);
    lemma_encode_utf8_concat(css_b64, b);
    lemma_encode_utf8_len(a);
    lemma_encode_utf8_len(b);
    lemma_post_literals_len();
    lemma_base64_len_bound(n, 16384);
    let k = encode_utf8(a).len() + encode_utf8(b).len();
    assert(encode_utf8(post_script_text(css_b64, debug)).len() == k + base64_len(n));
    assert(k <= 16384);
    assert(3 * ((k + base64_len(n) + 2) / 3) <= 3 * ((16384 + base64_len(n) + 2) / 3));
}

/// The writes of the imported themes, given as `(name, base64 of contents)`.
pub fn assemble_theme_puts(themes_b64: &Vec<(String, String)>) -> (puts: String)
    ensures
        puts@ == theme_puts_text(pairs_view(themes_b64@)),
{
    let mut puts = String::new();
    let n = themes_b64.len();
    for i in 0..n
        invariant
            n == themes_b64@.len(),
            puts@ == theme_puts_text(pairs_view(themes_b64@).take(i as int)),
    {
        let (name, content_b64) = &themes_b64[i];
        proof {
            let v = pairs_view(themes_b64@);
            assert(v.take(i + 1).drop_last() =~= v.take(i as int));
            assert(v.take(i + 1).last() == (name@, content_b64@));
        }
        let content_js = js_b64_expression(content_b64.as_str());
        let name_js = quote_js_name(name.as_str());
        puts.append(THEME_PUT_OPEN);
        puts.append(content_js.as_str());
        puts.append(THEME_PUT_SEP);
        puts.append(name_js.as_str());
        puts.append(THEME_PUT_CLOSE);
        proof {
            assert(puts@ =~= theme_puts_text(pairs_view(themes_b64@).take(i + 1)));
        }
    }
    proof {
        assert(pairs_view(themes_b64@).take(n as int) =~= pairs_view(themes_b64@));
    }
    puts
}

/// The import part of the launcher script, from the base64 of the settings, of the QuickCSS
/// (`None` when it is not written) and of each theme's contents.
pub fn assemble_import(
    settings_b64: &str,
    quick_css_b64: Option<&str>,
    themes_b64: &Vec<(String, String)>,
) -> (import: String)
    ensures
        import@ == import_text_from(
            settings_b64@,
            match quick_css_b64 {
                Some(q) => Some(q@),
                None => None,
            },
            pairs_view(themes_b64@),
        ),
{
    let mut import = String::from_str(OPS_DECL);
    import.append(DONE_FN);
    import.append(IDB_FN);
    import.append(MIGRATION_GUARD);
    import.append(SETTINGS_OPEN);
    let settings_js = js_b64_expression(settings_b64);
    import.append(settings_js.as_str());
    import.append(SETTINGS_CLOSE);
    match quick_css_b64 {
        Some(q) => {
            let quick_css_js = js_b64_expression(q);
            import.append(QUICK_CSS_OPEN);
            import.append(quick_css_js.as_str());
            import.append(QUICK_CSS_CLOSE);
        },
        None => {},
    }
    if themes_b64.len() > 0 {
        let puts = assemble_theme_puts(themes_b64);
        import.append(THEMES_OPEN);
        import.append(puts.as_str());
        import.append(THEMES_CLOSE);
    }
    import.append(MIGRATION_MARK);
    import.append(IMPORT_FINISH);
    proof {
        assert(import@ =~= import_text_from(
            settings_b64@,
            match quick_css_b64 {
                Some(q) => Some(q@),
                None => None,
            },
            pairs_view(themes_b64@),
        ));
    }
    import
}

/// The launcher script from the base64 style sheet, the base64 post-start script and the import
/// part (`None`: nothing to import, Vencord starts at once).
pub fn assemble_launcher(css_b64: &str, post_b64: &str, import: Option<&str>) -> (launcher: String)
    ensures
        launcher@ == launcher_text_from(
            css_b64@,
            post_b64@,
            match import {
                Some(t) => Some(t@),
                None => None,
            },
        ),
{
    let mut launcher = String::from_str(LAUNCHER_OPEN);
    launcher.append(POST_LOADER_OPEN);
    launcher.append(post_b64);
    launcher.append(POST_LOADER_CLOSE);
    launcher.append(GO_FN);
    launcher.append(CSS_LOADER_OPEN);
    launcher.append(css_b64);
    launcher.append(CSS_LOADER_CLOSE);
    launcher.append(CSS_HOOK);
    launcher.append(TITLEBAR_FN);
    launcher.append(TITLEBAR_HOOK);
    launcher.append(CSP_RETRY);
    match import {
        Some(t) => {
            launcher.append(t);
        },
        None => {
            launcher.append(GO_NOW);
        },
    }
    launcher.append(LAUNCHER_CLOSE);
    proof {
        assert(launcher@ =~= launcher_text_from(
            css_b64@,
            post_b64@,
            match import {
                Some(t) => Some(t@),
                None => None,
            },
        ));
    }
    launcher
}

fn encode_theme_contents(themes: &Vec<(String, String)>) -> (encoded: Vec<(String, String)>)
    requires
        forall|i: int| 0 <= i < themes@.len() ==> within_isize(#[trigger] themes@[i].1@),
    ensures
        pairs_view(encoded@) == encoded_themes(themes@),
{
    let mut encoded: Vec<(String, String)> = Vec::new();
    let n = themes.len();
    for i in 0..n
        invariant
            n == themes@.len(),
            forall|i: int| 0 <= i < themes@.len() ==> within_isize(#[trigger] themes@[i].1@),
            pairs_view(encoded@) == encoded_themes(themes@).take(i as int),
    {
        let (name, content) = &themes[i];
        proof {
            assert(within_isize(themes@[i as int].1@));
            lemma_within_isize_fits(content@);
        }
        let content_b64 = base64_encode(content.as_str());
        let ghost before = encoded@;
        let name_copy = name.clone();
        encoded.push((name_copy, content_b64));
        proof {
            assert(encoded@ == before.push((name_copy, content_b64)));
            assert(pairs_view(before).len() == i);
            assert(before.len() == i);
            assert(encoded@.len() == i + 1);
            assert(pairs_view(encoded@).len() == i + 1);
            assert(encoded_themes(themes@).take(i + 1).len() == i + 1);
            assert(name_copy@ == themes@[i as int].0@);
            assert(content@ == themes@[i as int].1@);
            assert forall|j: int| 0 <= j < i + 1 implies #[trigger] pairs_view(encoded@)[j]
                == encoded_themes(themes@).take(i + 1)[j] by {
                if j < i {
                    assert(pairs_view(before)[j] == encoded_themes(themes@).take(i as int)[j]);
                }
            }
            assert(pairs_view(encoded@) =~= encoded_themes(themes@).take(i + 1));
        }
    }
    proof {
        assert(encoded_themes(themes@).take(n as int) =~= encoded_themes(themes@));
    }
    encoded
}

fn build_import(m: &VencordMigration) -> (import: String)
    requires
        migration_within_isize(*m),
    ensures
        import@ == import_text(*m),
{
    proof {
        lemma_within_isize_fits(m.settings@);
        lemma_within_isize_fits(m.quick_css@);
    }
    let settings_b64 = base64_encode(m.settings.as_str());
    let themes_b64 = encode_theme_contents(&m.themes);
    if is_blank(m.quick_css.as_str()) {
        assemble_import(settings_b64.as_str(), None, &themes_b64)
    } else {
        let quick_css_b64 = base64_encode(m.quick_css.as_str());
        assemble_import(settings_b64.as_str(), Some(quick_css_b64.as_str()), &themes_b64)
    }
}

/// Builds the two initialization scripts: the Vencord build wrapped in `__tcVencord`, and the
/// launcher that injects the style sheet, draws the titlebar, imports the desktop Vencord data
/// when there is any and it was not imported before (`MIGRATION_FLAG`), and then starts Vencord. `debug` adds the status badge of debug builds.
pub fn build_bootstrap_scripts(
    assets: &VencordAssets,
    migration: Option<&VencordMigration>,
    debug: bool,
) -> (scripts: (String, String))
    requires
        within_isize(assets.css@),
        migration matches Some(m) ==> migration_within_isize(*m),
    ensures
        scripts.0@ == vencord_function_text(assets.js@),
        scripts.1@ == launcher_text(
            assets.css@,
            debug,
            match migration {
                Some(m) => Some(*m),
                None => None,
            },
        ),
        is_base64_text(standard_base64(assets.css@)),
        is_base64_text(standard_base64(post_script_text(standard_base64(assets.css@), debug))),
{
    proof {
        lemma_within_isize_fits(assets.css@);
    }
    let css_b64 = base64_encode(assets.css.as_str());

    let mut vencord_fn = String::from_str(FN_OPEN);
    vencord_fn.append(assets.js.as_str());
    vencord_fn.append(FN_CLOSE);

    let post = post_script(css_b64.as_str(), debug);
    proof {
        lemma_base64_ascii(css_b64@);
        lemma_post_script_fits(css_b64@, encode_utf8(assets.css@).len(), debug);
    }
    let post_b64 = base64_encode(post.as_str());

    let launcher = match migration {
        Some(m) => {
            let import = build_import(m);
            assemble_launcher(css_b64.as_str(), post_b64.as_str(), Some(import.as_str()))
        },
        None => assemble_launcher(css_b64.as_str(), post_b64.as_str(), None),
    };
    proof {
        assert(vencord_fn@ =~= vencord_function_text(assets.js@));
    }
    (vencord_fn, launcher)
}

} // verus!

verus! {

/// `needle` occurs in `s` at position `k`.
pub open spec fn occurs_at(s: Seq<char>, needle: Seq<char>, k: int) -> bool {
    0 <= k && k + needle.len() <= s.len() && s.subrange(k, k + needle.len()) == needle
}

/// The desktop data is imported once: in the launcher script of every import, the writes of
/// the settings, QuickCSS and themes stand in a block that runs only when `MIGRATION_FLAG` is
/// absent from local storage, and that block ends by setting the flag.
pub proof fn law_import_runs_once(css: Seq<char>, debug: bool, m: VencordMigration)
    ensures
        launcher_text(css, debug, Some(m)) == launcher_text_from(
            standard_base64(css),
            standard_base64(post_script_text(standard_base64(css), debug)),
            Some(
                import_setup_text() + MIGRATION_GUARD@ + import_writes_text(
                    standard_base64(m.settings@),
                    if is_blank_text(m.quick_css@) {
                        None
                    } else {
                        Some(standard_base64(m.quick_css@))
                    },
                    encoded_themes(m.themes@),
                ) + MIGRATION_MARK@ + IMPORT_FINISH@,
            ),
        ),
        occurs_at(
            MIGRATION_GUARD@,
            "localStorage.getItem('"@ + MIGRATION_FLAG@ + "')!==null"@,
            36,
        ),
        has_suffix(MIGRATION_GUARD@, "if(!tcMigrated){"@),
        occurs_at(MIGRATION_MARK@, "localStorage.setItem('"@ + MIGRATION_FLAG@ + "','1');"@, 4),
        has_suffix(MIGRATION_MARK@, "}"@),
{
    reveal_strlit("var tcMigrated=false;try{tcMigrated=localStorage.getItem('__taurcordVencordMigrated')!==null;}catch(e){}if(!tcMigrated){");
    reveal_strlit("localStorage.getItem('");
    reveal_strlit("__taurcordVencordMigrated");
    reveal_strlit("')!==null");
    reveal_strlit("if(!tcMigrated){");
    reveal_strlit("try{localStorage.setItem('__taurcordVencordMigrated','1');}catch(e){}}");
    reveal_strlit("localStorage.setItem('");
    reveal_strlit("','1');");
    reveal_strlit("}");
    let g = MIGRATION_GUARD@;
    let k = MIGRATION_MARK@;
    assert(g.subrange(36int, 92int) =~= "localStorage.getItem('"@ + MIGRATION_FLAG@ + "')!==null"@);
    assert(g.skip(g.len() - 16int) =~= "if(!tcMigrated){"@);
    assert(k.subrange(4int, 58int) =~= "localStorage.setItem('"@ + MIGRATION_FLAG@ + "','1');"@);
    assert(k.skip(k.len() - 1int) =~= "}"@);
}

} // verus!

verus! {

proof fn lemma_occurs_in_context(a: Seq<char>, x: Seq<char>, b: Seq<char>, needle: Seq<char>, k: int)
    requires
        occurs_at(x, needle, k),
    ensures
        occurs_at(a + x + b, needle, a.len() + k),
{
    assert((a + x + b).subrange(a.len() + k, a.len() + k + needle.len()) =~= x.subrange(
        k,
        k + needle.len(),
    ));
}

proof fn lemma_theme_puts_concat(a: Seq<(Seq<char>, Seq<char>)>, b: Seq<(Seq<char>, Seq<char>)>)
    ensures
        theme_puts_text(a + b) == theme_puts_text(a) + theme_puts_text(b),
    decreases b.len(),
{
    if b.len() == 0 {
        assert(a + b =~= a);
        assert(theme_puts_text(a) + theme_puts_text(b) =~= theme_puts_text(a));
    } else {
        lemma_theme_puts_concat(a, b.drop_last());
        assert((a + b).drop_last() =~= a + b.drop_last());
        assert((a + b).last() == b.last());
        assert(theme_puts_text(a + b) =~= theme_puts_text(a) + theme_puts_text(b));
    }
}

/// The JavaScript write of one theme given as `(name, base64 of contents)`.
pub open spec fn theme_put_of(name: Seq<char>, content_b64: Seq<char>) -> Seq<char> {
    "s.put(decodeURIComponent(escape(atob('"@ + content_b64 + "'))),"@ + js_quoted(name) + ");"@
}

proof fn lemma_theme_put_occurs(t: Seq<(Seq<char>, Seq<char>)>, i: int)
    requires
        0 <= i < t.len(),
    ensures
        occurs_at(theme_puts_text(t), theme_put_of(t[i].0, t[i].1), theme_puts_text(t.take(i)).len() as int),
{
    reveal_strlit("s.put(");
    reveal_strlit(",");
    reveal_strlit(");");
    reveal_strlit("s.put(decodeURIComponent(escape(atob('");
    reveal_strlit("'))),");
    reveal_strlit("decodeURIComponent(escape(atob('");
    reveal_strlit("')))");
    let one = seq![t[i]];
    assert(t =~= t.take(i) + one + t.skip(i + 1));
    lemma_theme_puts_concat(t.take(i) + one, t.skip(i + 1));
    lemma_theme_puts_concat(t.take(i), one);
    assert(one.drop_last() =~= Seq::<(Seq<char>, Seq<char>)>::empty());
    assert(theme_puts_text(Seq::<(Seq<char>, Seq<char>)>::empty()) =~= Seq::<char>::empty());
    assert(theme_puts_text(one) =~= theme_put_of(t[i].0, t[i].1));
    let put = theme_put_of(t[i].0, t[i].1);
    assert(put.subrange(0, put.len() as int) =~= put);
    lemma_occurs_in_context(
        theme_puts_text(t.take(i)),
        theme_put_of(t[i].0, t[i].1),
        theme_puts_text(t.skip(i + 1)),
        theme_put_of(t[i].0, t[i].1),
        0,
    );
    assert(theme_puts_text(t) == theme_puts_text(t.take(i)) + theme_put_of(t[i].0, t[i].1)
        + theme_puts_text(t.skip(i + 1)));
}

proof fn lemma_import_in_launcher(css: Seq<char>, debug: bool, m: VencordMigration, writes_needle: Seq<char>, k: int)
    requires
        occurs_at(import_writes_text(
            standard_base64(m.settings@),
            if is_blank_text(m.quick_css@) {
                None
            } else {
                Some(standard_base64(m.quick_css@))
            },
            encoded_themes(m.themes@),
        ), writes_needle, k),
    ensures
        exists|j: int| occurs_at(launcher_text(css, debug, Some(m)), writes_needle, j),
{
    let w = import_writes_text(
        standard_base64(m.settings@),
        if is_blank_text(m.quick_css@) {
            None
        } else {
            Some(standard_base64(m.quick_css@))
        },
        encoded_themes(m.themes@),
    );
    let css_b64 = standard_base64(css);
    let post_b64 = standard_base64(post_script_text(css_b64, debug));
    let head = LAUNCHER_OPEN@ + POST_LOADER_OPEN@ + post_b64 + POST_LOADER_CLOSE@ + GO_FN@
        + CSS_LOADER_OPEN@ + css_b64 + CSS_LOADER_CLOSE@ + CSS_HOOK@ + TITLEBAR_FN@
        + TITLEBAR_HOOK@ + CSP_RETRY@ + import_setup_text() + MIGRATION_GUARD@;
    let tail = MIGRATION_MARK@ + IMPORT_FINISH@ + LAUNCHER_CLOSE@;
    assert(launcher_text(css, debug, Some(m)) =~= head + w + tail);
    lemma_occurs_in_context(head, w, tail, writes_needle, k);
}

/// Every theme of the import is written, whatever the QuickCSS is (blank, absent or not):
/// for each theme, the launcher contains its write `s.put(contents, 'name');`, and the
/// writes of the import end with the block that opens the theme store, holds all the themes'
/// writes in order and closes it.
pub proof fn law_themes_written_whatever_the_quick_css(
    css: Seq<char>,
    debug: bool,
    m: VencordMigration,
    i: int,
    settings_b64: Seq<char>,
    quick_css_b64: Option<Seq<char>>,
    themes_b64: Seq<(Seq<char>, Seq<char>)>,
)
    requires
        0 <= i < m.themes@.len(),
        themes_b64.len() > 0,
    ensures
        has_suffix(
            import_writes_text(settings_b64, quick_css_b64, themes_b64),
            "tcIdb('VencordThemes','VencordThemeData',function(s){"@ + theme_puts_text(themes_b64)
                + "});"@,
        ),
        exists|j: int|
            occurs_at(
                launcher_text(css, debug, Some(m)),
                theme_put_of(m.themes@[i].0@, standard_base64(m.themes@[i].1@)),
                j,
            ),
{
    reveal_strlit("tcIdb('VencordThemes','VencordThemeData',function(s){");
    reveal_strlit("});");
    let w = import_writes_text(settings_b64, quick_css_b64, themes_b64);
    let block = THEMES_OPEN@ + theme_puts_text(themes_b64) + THEMES_CLOSE@;
    assert(w.skip(w.len() - block.len()) =~= block);
    let t = encoded_themes(m.themes@);
    let q = if is_blank_text(m.quick_css@) {
        None
    } else {
        Some(standard_base64(m.quick_css@))
    };
    let w2 = import_writes_text(standard_base64(m.settings@), q, t);
    let block2 = THEMES_OPEN@ + theme_puts_text(t) + THEMES_CLOSE@;
    lemma_theme_put_occurs(t, i);
    let k = theme_puts_text(t.take(i)).len() as int;
    let needle = theme_put_of(t[i].0, t[i].1);
    lemma_occurs_in_context(THEMES_OPEN@, theme_puts_text(t), THEMES_CLOSE@, needle, k);
    let front = w2.subrange(0, w2.len() - block2.len());
    assert(w2 =~= front + block2 + Seq::<char>::empty());
    lemma_occurs_in_context(front, block2, Seq::<char>::empty(), needle, THEMES_OPEN@.len() + k);
    lemma_import_in_launcher(css, debug, m, needle, front.len() + THEMES_OPEN@.len() + k);
}

/// QuickCSS that holds a character other than white space is always written: the launcher
/// contains the write of its base64 to the QuickCSS store.
pub proof fn law_non_blank_quick_css_is_written(css: Seq<char>, debug: bool, m: VencordMigration, i: int)
    requires
        0 <= i < m.quick_css@.len(),
        !is_white_space(m.quick_css@[i]),
    ensures
        exists|j: int|
            occurs_at(
                launcher_text(css, debug, Some(m)),
                "tcIdb('VencordData','VencordStore',function(s){s.put(decodeURIComponent(escape(atob('"@
                    + standard_base64(m.quick_css@) + "'))),'VencordQuickCss');});"@,
                j,
            ),
{
    reveal_strlit("tcIdb('VencordData','VencordStore',function(s){s.put(decodeURIComponent(escape(atob('");
    reveal_strlit("'))),'VencordQuickCss');});");
    reveal_strlit("tcIdb('VencordData','VencordStore',function(s){s.put(");
    reveal_strlit(",'VencordQuickCss');});");
    reveal_strlit("decodeURIComponent(escape(atob('");
    reveal_strlit("')))");
    assert(!is_blank_text(m.quick_css@));
    let q = standard_base64(m.quick_css@);
    let needle = "tcIdb('VencordData','VencordStore',function(s){s.put(decodeURIComponent(escape(atob('"@
        + q + "'))),'VencordQuickCss');});"@;
    assert(QUICK_CSS_OPEN@ + js_b64_expr_text(q) + QUICK_CSS_CLOSE@ =~= needle);
    let s = standard_base64(m.settings@);
    let t = encoded_themes(m.themes@);
    let front = SETTINGS_OPEN@ + js_b64_expr_text(s) + SETTINGS_CLOSE@;
    let back = if t.len() == 0 {
        Seq::empty()
    } else {
        THEMES_OPEN@ + theme_puts_text(t) + THEMES_CLOSE@
    };
    let w = import_writes_text(s, Some(q), t);
    assert(w =~= front + needle + back);
    assert(needle.subrange(0, needle.len() as int) =~= needle);
    lemma_occurs_in_context(front, needle, back, needle, 0);
    lemma_import_in_launcher(css, debug, m, needle, front.len() as int);
}

} // verus!
