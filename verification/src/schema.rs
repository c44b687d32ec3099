//! The documents that describe workflows and command line tools.

pub mod command_line_tool;
pub mod document;
pub mod requirements;
pub mod types;
pub mod workflow;
