//! The values that a workflow step takes and gives.

pub mod path;
pub mod types;
