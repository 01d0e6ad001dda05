//! Writing-speed tracking with Pomodoro-style work and break intervals.
//!
//! The crate holds the timing and measuring rules of a writing session as a
//! state machine over whole milliseconds. Reading the watched file, waiting
//! for the next tick and showing a notification are left to the caller, which
//! hands the file's text to the session and carries out the effect that a
//! tick returns.

pub mod clock;
pub mod config;
pub mod laws;
pub mod model;
pub mod sampler;
pub mod session;
pub mod words;
