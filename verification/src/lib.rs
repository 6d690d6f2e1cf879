//! Watch files selected by a glob pattern and re-run a shell command when they
//! change, with bursts of changes coalesced by a debounce window.
//!
//! This crate holds the decisions of that pipeline: how a pattern is split and
//! resolved into watch targets, when a debounced run is due, how a command is
//! invoked and how its outcome is reported. The surrounding program performs
//! the filesystem, timer and process work and hands plain values in and out.

pub mod args;
pub mod command;
pub mod debounce;
pub mod elapsed;
pub mod errors;
pub mod event_loop;
pub mod resolve;
pub mod shell;

pub use args::Args;
pub use shell::Shell;
