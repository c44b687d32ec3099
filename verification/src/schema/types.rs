//! Types that several kinds of document share.

use vstd::prelude::*;
use std::collections::HashMap;
use crate::manifest::clone_texts;

verus! {

/// Class of a workflow document.
pub const WF_CWL_CLASS: &'static str = "Workflow";

/// Class of a command line tool document.
pub const CLT_CWL_CLASS: &'static str = "CommandLineTool";

/// The value type of serde_yaml: a YAML value of any shape, carried
/// through as it was read.
#[verifier::external_type_specification]
#[verifier::external_body]
pub struct ExYamlValue(serde_yaml::Value);

/// A value of any shape, such as the default of a parameter.
#[derive(Debug)]
pub enum Any {
    Any(serde_yaml::Value),
}

/// The type of a parameter.
#[derive(Debug)]
pub enum CwlSchemaType {
    /// A type given by its name, such as `boolean`.
    Any(String),
    /// A choice or list of types.
    Array(Vec<CwlSchemaType>),
    /// A type given by its fields, such as `type: array` with `items: File`.
    Mapping(HashMap<String, CwlSchemaType>),
}

/// Documentation of an item: one line or several.
#[derive(Clone, Debug, PartialEq, Eq)]
pub enum Documentation {
    SingleLine(String),
    MultiLine(Vec<String>),
}

/// Format of a file: one or several.
#[derive(Clone, Debug, PartialEq, Eq)]
pub enum Format {
    Format(String),
    Formats(Vec<String>),
}

/// The parameters over which a step is scattered: one or several.
#[derive(Clone, Debug, PartialEq, Eq)]
pub enum Scatter {
    Parameter(String),
    Parameters(Vec<String>),
}

/// Where the value of a step's input comes from: one source or several.
#[derive(Clone, Debug, PartialEq, Eq)]
pub enum Source {
    SingleSource(String),
    MultiSources(Vec<String>),
}

/// The sources that `source` names, in their order.
pub open spec fn sources_of(source: Source) -> Seq<Seq<char>> {
    match source {
        Source::SingleSource(src) => seq![src@],
        Source::MultiSources(sources) => sources.deep_view(),
    }
}

impl Source {
    /// The sources as a list: a single source is a list of one.
    pub fn to_vec(&self) -> (sources: Vec<String>)
        ensures
            sources.deep_view() == sources_of(*self),
    {
        match self {
            Source::SingleSource(src) => {
                let mut sources: Vec<String> = Vec::new();
                sources.push(src.clone());
                assert(sources.deep_view() =~= seq![src@]);
                sources
            },
            Source::MultiSources(sources) => clone_texts(sources),
        }
    }
}

} // verus!
