//! Verified core of a Discord desktop shell that loads Vencord into a webview.

pub mod encoding;
pub mod text;
pub mod migration;
pub mod bootstrap;
pub mod navigation;
pub mod platform;
pub mod assets;
