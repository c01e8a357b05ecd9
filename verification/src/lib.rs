//! Thanatonaut: a verified core for an offline game-service emulator.
pub mod encoding;
pub mod error;
pub mod text;
pub mod text_scan;
pub mod protocol;
pub mod state;
pub mod path_policy;
pub mod crypto;
pub mod settings;
pub mod manifest;
pub mod server;
pub mod tui;
pub mod installer;
