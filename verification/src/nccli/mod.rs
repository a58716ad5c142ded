//! The logic of the `nccli` command-line tool: privilege checks, command
//! classification, output formatting and the checks and texts its
//! commands are built from.

pub mod privilege;
pub mod commands;
pub mod format;
pub mod checks;
pub mod actions;
