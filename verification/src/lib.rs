//! Clipboard-history engine.
//!
//! The library keeps a bounded, most-recent-first history of clipboard
//! snapshots, classifies every incoming snapshot against the history front
//! and against the engine's own last clipboard write, and drives the
//! hotkey-triggered cycling protocol that steps backward through the history.
//! All operating-system binding (window setup, message loop, clipboard and
//! keyboard access) lives outside the library and hands it plain values.

pub mod classify;
pub mod engine;
pub mod history;
pub mod item;
pub mod keys;
pub mod text;
