//! Activation of a system profile on a remote host, with rollback safety.
//!
//! The crate holds the pure core of the deployment protocol: the exact remote
//! command lines, the interpretation of remote exit statuses, and the state
//! machine that decides, event by event, what the driver has to do next.
//! Spawning processes and awaiting them is left to the caller.
//!
//! - [`command`]: the command lines for activation, wait and confirmation.
//! - [`flags`]: which options a command line shows, and in which order.
//! - [`text`]: decimal numerals, and where one text occurs in another.
//! - [`error`]: the failures, and the verdict on a remote exit status.
//! - [`plan`]: defaults, the target's address, what a deployment runs.
//! - [`protocol`]: the orchestrator, a state machine over events.
//! - [`runs`]: what holds of every run of the orchestrator.

pub mod command;
pub mod error;
pub mod flags;
pub mod plan;
pub mod protocol;
pub mod runs;
pub mod text;
