//! What a workflow or a command line tool requires of the platform that
//! runs it.

use vstd::prelude::*;

verus! {

/// The versions of the document format that are understood.
pub const SUPPORTED_CWL_VERSIONS: [&'static str; 1] = ["v1.2"];

/// The oldest version of the document format that is understood.
pub const MINIMAL_CWL_VERSION: &'static str = "v1.2";

/// Cores that a tool gets where it asks for none.
pub const CPU_NUM_DEFAULT: u32 = 1;

/// Memory in megabytes that a tool gets where it asks for none.
pub const RAM_SIZE_IN_MB_DEFAULT: u32 = 1024;

/// Temporary space in megabytes that a tool gets where it asks for none.
pub const TMPDIR_MIN_IN_MB_DEFAULT: u32 = 1024;

/// Output space in megabytes that a tool gets where it asks for none.
pub const OUTDIR_MIN_IN_MB_DEFAULT: u32 = 1024;

/// A requirement of a workflow.
#[derive(Clone, Debug, PartialEq, Eq)]
pub enum WorkflowRequirement {
    InlineJavascriptRequirement(InlineJavascriptRequirement),
    ScatterFeatureRequirement(ScatterFeatureRequirement),
}

/// A requirement of a command line tool.
#[derive(Clone, Debug, PartialEq, Eq)]
pub enum CommandLineToolRequirement {
    DockerRequirement(DockerRequirement),
    ResourceRequirement(ResourceRequirement),
    InlineJavascriptRequirement(InlineJavascriptRequirement),
    ToolTimeLimit(ToolTimeLimit),
    WorkReuse(WorkReuse),
}

/// The image in which a tool runs.
#[derive(Clone, Debug, PartialEq, Eq)]
pub struct DockerRequirement {
    pub docker_pull: String,
}

/// The least resources with which a tool runs.
#[derive(Clone, Copy, Debug, PartialEq, Eq, Structural)]
pub struct ResourceRequirement {
    pub cores_min: u32,
    pub ram_min: u32,
    pub tmpdir_min: u32,
    pub outdir_min: u32,
}

impl ResourceRequirement {
    /// Cores of a tool that asks for none.
    pub fn cores_min() -> (cores: u32)
        ensures
            cores == CPU_NUM_DEFAULT,
    {
        CPU_NUM_DEFAULT
    }

    /// Memory of a tool that asks for none.
    pub fn ram_min() -> (ram: u32)
        ensures
            ram == RAM_SIZE_IN_MB_DEFAULT,
    {
        RAM_SIZE_IN_MB_DEFAULT
    }

    /// Temporary space of a tool that asks for none.
    pub fn tmpdir_min() -> (tmpdir: u32)
        ensures
            tmpdir == TMPDIR_MIN_IN_MB_DEFAULT,
    {
        TMPDIR_MIN_IN_MB_DEFAULT
    }

    /// Output space of a tool that asks for none.
    pub fn outdir_min() -> (outdir: u32)
        ensures
            outdir == OUTDIR_MIN_IN_MB_DEFAULT,
    {
        OUTDIR_MIN_IN_MB_DEFAULT
    }
}

/// The platform must evaluate inline Javascript expressions.
#[derive(Clone, Copy, Debug, PartialEq, Eq, Structural)]
pub struct InlineJavascriptRequirement;

/// The longest time for which a tool may run.
#[derive(Clone, Debug, PartialEq, Eq)]
pub struct ToolTimeLimit {
    pub timelimit: Timelimit,
}

/// A time limit: seconds, or an expression that gives them.
#[derive(Clone, Debug, PartialEq, Eq)]
pub enum Timelimit {
    Seconds(u32),
    Expression(String),
}

/// The platform must support scattering a step over its inputs.
#[derive(Clone, Copy, Debug, PartialEq, Eq, Structural)]
pub struct ScatterFeatureRequirement;

/// Whether the output of earlier runs of a tool may be used again.
#[derive(Clone, Copy, Debug, PartialEq, Eq, Structural)]
pub struct WorkReuse {
    pub enable_reuse: bool,
}

} // verus!
