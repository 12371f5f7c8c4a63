//! Orchestration of completion requests for a modal text editor.
//!
//! The crate decides when a completion request is worth raising, which replies of the
//! completion providers reach the popup, and how the popup's session reacts to commands,
//! inserted characters and mode switches. All state is held in plain values; whoever owns
//! the editor feeds in snapshots and carries out the returned actions.

pub mod chars;
pub mod collector;
pub mod editor;
pub mod event;
pub mod hooks;
pub mod item;
pub mod laws;
pub mod session;
pub mod task;
pub mod trigger;
pub mod ui;
