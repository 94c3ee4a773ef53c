//! Decision logic of a git-driven deployment supervisor.
//!
//! A session runs a script inside a git working copy and polls the remote
//! for new commits. This library holds the rules of such a session: how a
//! configuration is read, where the working copy is found, which branch is
//! tracked, how an update is brought in, what the updater reports, and when
//! the supervisor starts the script again. It touches no file, no network
//! and no process. Where work of that kind is needed, a state machine names
//! the next action, the caller carries it out and reports what it gave.

pub mod branch;
pub mod config;
pub mod divergence;
pub mod document;
pub mod errors;
pub mod git;
pub mod loader;
pub mod paths;
pub mod repo;
pub mod session;
pub mod supervisor;
pub mod update;
pub mod updater;
pub mod yaml;
