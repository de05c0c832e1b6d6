//! Command-line surface and command execution for a kernel module manager.

pub mod text;
pub mod exec;
pub mod cli;
pub mod clap_calls;
pub mod keys;
