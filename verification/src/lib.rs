//! Run a list of shell commands concurrently, relay each command's output
//! with an index prefix, report every command's termination, and — when
//! kill-on-exit is configured — cascade termination to all sibling
//! processes at most once per run.
//!
//! This crate is the coordination core: signal classification, output-line
//! formatting, termination-outcome classification, and the single-fire
//! cascade protocol. Process spawning and stream plumbing live in the
//! surrounding binary, which hands this library plain values.

pub mod cascade;
pub mod cmd_ext;
pub mod outcome;
pub mod runtime;
pub mod signals;
pub mod text;
