//! Core of the terminal panel: the broker wire protocol, the registry of managed
//! terminals, and the pure decisions behind the panel views.

pub mod cleanup;
pub mod cli;
pub mod commands;
pub mod decode;
pub mod ids;
pub mod json;
pub mod panel;
pub mod protocol;
pub mod text;
pub mod registry;
pub mod shell;
pub mod state;
pub mod tui;
pub mod workspace;
