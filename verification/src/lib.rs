//! Command synthesis for a flake-based configuration dispatcher.
//!
//! The library resolves the configuration directory to operate on, classifies
//! the host, and builds the argument vectors of the external build tools. It
//! never touches the filesystem or spawns a process itself: callers hand in
//! what they observed and receive the command to run.

pub mod text;
pub mod helpers;
pub mod probe;
pub mod options;
pub mod flake_root;
pub mod command;
pub mod rebuild;
pub mod run;
pub mod update;
pub mod misc;
pub mod dispatch;
