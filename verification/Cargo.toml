[package]
name = "taurcord"
version = "0.1.0"
edition = "2021"
publish = false

[dependencies]
base64 = "=0.22.1"
tauri = { version = "=2.12.5", default-features = false }
tauri-plugin-single-instance = "2"
webview2-com = "=0.39.1"
windows-core = "=0.62.2"
