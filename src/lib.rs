//! Startup and sidecar supervision for a desktop shell.
//!
//! The shell registers its plugins, chooses between a supervised backend
//! (release builds) and a manually started one (development builds), spawns
//! the packaged backend at most once, and keeps the backend's lifetime within
//! its own. Every decision is made here, as transitions of state machines; the
//! host framework performs the directives and reports what happened.
pub mod log_event;

pub mod supervisor;
pub mod shell;
pub mod laws;
