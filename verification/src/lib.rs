//! Decision logic of a streaming process supervisor.
//!
//! One external program is run per job. Its output is forwarded line by line,
//! a deadline is enforced, and a job can be cancelled at any time. This crate
//! holds the decisions; spawning, reading, sleeping and emitting are left to
//! the caller, which feeds the outcomes back in as plain values.

pub mod launcher;
pub mod laws;
pub mod model;
pub mod notify;
pub mod registry;
pub mod resolver;
pub mod settings;
pub mod shortcut;
pub mod supervisor;
