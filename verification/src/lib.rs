//! Restart coordination for a worker process that runs under an init
//! system.
//!
//! The process keeps the init system informed with heartbeats, watches a
//! directory for changes to plugin and service artifacts, and ends in exactly
//! one of three ways: the worker returned, an artifact changed, or an
//! interrupt arrived. An artifact change ends the process with exit code
//! zero, which asks the init system to start it again.
//!
//! This library holds the decisions and none of the waiting:
//!
//! - [`artifact`]: which file names are artifacts;
//! - [`condition`]: the single-shot "changed" signal;
//! - [`watch`]: which filesystem events raise the signal, and the steps of
//!   setting up the watch;
//! - [`heartbeat`]: when to beat, and what a failed notification means;
//! - [`coordinator`]: the state machine that fixes the outcome, the restart
//!   flag and the exit code.
//!
//! The caller owns the operating system's resources. It reports what
//! happened as plain values and carries out what the library answers.

pub mod artifact;
pub mod condition;
pub mod coordinator;
pub mod heartbeat;
pub mod watch;
