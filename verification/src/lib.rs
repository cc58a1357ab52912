//! Verified core of `ybuild`, a zero-configuration build runner.
//!
//! The library holds every decision the tool makes: which build system a
//! directory uses, which commands a system runs for a set of options, how
//! build-tool output is turned into selectable targets, how the per-directory
//! preference is kept in the configuration document, and how the command
//! line is read. The program around it performs the I/O that these
//! decisions ask for.

pub mod options;
pub mod text;
pub mod order;
pub mod command;
pub mod json;
pub mod error;
pub mod config;
pub mod select;
pub mod systems;
pub mod cli;
pub mod session;
pub mod binaries;
pub mod logger;
pub mod ignore;
