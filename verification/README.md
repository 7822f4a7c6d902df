# taurcord

The verified core of a small Discord desktop shell that runs Discord's web app in a native
webview and loads the Vencord browser build into it.

- `src/` is the library, verified with Verus:
  - `bootstrap` builds the two initialization scripts (the wrapped Vencord build and the
    launcher that injects the style sheet, draws the titlebar, imports desktop data and
    starts Vencord);
  - `migration` turns what was read of a desktop Vencord installation into the data to import;
  - `encoding` carries text into scripts as base64 and quotes theme names as JavaScript
    string literals;
  - `navigation` decides which pages stay in the app and which open in the system browser;
  - `assets` orders the places searched for the Vencord build;
  - `platform` holds the WebView2 browser arguments and the permissions granted at once;
  - `text` holds string helpers.
- `app/` is the Tauri program around it: window creation, file system and process access,
  and the WebView2 hooks.
- `tests/` runs the library on concrete inputs.
