//! Cross-platform OS media controls: the verified core.
//!
//! This crate holds the decisions behind publishing a player's state to the
//! operating system's media widget (MPRIS on Linux, System Media Transport
//! Controls on Windows, Now Playing on macOS) and turning the widget's
//! requests back into player events. The platform calls themselves live in
//! the application layer, which hands this crate plain values.

pub mod state;
pub mod config;
pub mod error;
pub mod text;
pub mod mpris;
pub mod controls;
pub mod cache;
pub mod smtc;
pub mod now_playing;
