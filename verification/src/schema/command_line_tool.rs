//! The document that describes a command line tool.

use vstd::prelude::*;
use crate::schema::requirements::CommandLineToolRequirement;
use crate::schema::types::{Any, CwlSchemaType, Documentation};

verus! {

/// A command line tool: what it takes, what it gives and what it requires.
#[derive(Debug)]
pub struct CommandLineTool {
    pub cwl_version: String,
    pub class: String,
    pub doc: Option<Documentation>,
    pub id: String,
    pub label: Option<String>,
    pub inputs: Vec<CommandInputParameter>,
    pub outputs: Vec<CommandOutputParameter>,
    pub requirements: Vec<CommandLineToolRequirement>,
}

impl CommandLineTool {
    /// The version of a document that states none.
    pub fn default_cwl_version() -> (version: String)
        ensures
            version@ == "v1.2"@,
    {
        "v1.2".to_string()
    }

    /// The class of a document that states none.
    pub fn default_class() -> (class: String)
        ensures
            class@ == "CommandLineTool"@,
    {
        "CommandLineTool".to_string()
    }
}

/// An input of a command line tool.
#[derive(Debug)]
pub struct CommandInputParameter {
    pub id: String,
    pub type_: CwlSchemaType,
    pub input_binding: Option<CommandLineBinding>,
    pub default: Option<Any>,
}

/// An output of a command line tool.
#[derive(Debug)]
pub struct CommandOutputParameter {
    pub id: String,
    pub type_: CwlSchemaType,
    pub output_binding: Option<OutputBinding>,
}

/// How an input appears on the command line.
#[derive(Clone, Debug, PartialEq, Eq)]
pub struct CommandLineBinding {
    pub position: Option<u32>,
    pub prefix: Option<String>,
    pub value_from: Option<String>,
}

/// How an output is found once the tool has run.
#[derive(Clone, Debug, PartialEq, Eq)]
pub struct OutputBinding {
    pub glob: Option<String>,
    pub output_eval: Option<String>,
}

} // verus!
