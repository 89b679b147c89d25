//! Frame-scoped UI state coordinator for an immediate-mode UI overlay.
//!
//! Each frame, raw input events are classified as "consumed by the UI" or
//! "passed through to the application" (`input`, `classifier`), a single
//! shared UI context is advanced behind an exclusive-access lock (`state`),
//! a process-wide slot exposes the active frame's UI-building handle for
//! exactly one frame window (`frame`), and a plugin adapter decides where
//! the UI's draw output lands in the host's render graph (`plugin`).

pub mod channel;
pub mod classifier;
pub mod config;
pub mod frame;
pub mod input;
pub mod plugin;
pub mod state;
