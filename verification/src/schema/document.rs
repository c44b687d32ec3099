//! A document of either kind, and the check that tells the two apart.

use vstd::prelude::*;
use crate::schema::command_line_tool::CommandLineTool;
use crate::schema::workflow::Workflow;
use crate::text::str_eq;

verus! {

/// A document: a command line tool or a workflow.
#[derive(Debug)]
pub enum CwlSchema {
    CommandLineTool(CommandLineTool),
    Workflow(Workflow),
}

/// The kind of a document.
#[derive(Clone, Copy, Debug, PartialEq, Eq, Structural)]
pub enum DocumentClass {
    CommandLineTool,
    Workflow,
}

/// Why a document is not read.
#[derive(Clone, Debug, PartialEq, Eq)]
pub enum SchemaError {
    /// The document states no version.
    MissingVersion,
    /// The document states a version that is not understood.
    UnsupportedVersion(String),
    /// The document states a class that is not understood.
    UnsupportedClass(String),
    /// The document states no class.
    MissingClass,
}

/// What a `SchemaError` holds, as the contracts speak of it.
pub enum SchemaErrorView {
    MissingVersion,
    UnsupportedVersion(Seq<char>),
    UnsupportedClass(Seq<char>),
    MissingClass,
}

impl DeepView for SchemaError {
    type V = SchemaErrorView;

    open spec fn deep_view(&self) -> SchemaErrorView {
        match self {
            SchemaError::MissingVersion => SchemaErrorView::MissingVersion,
            SchemaError::UnsupportedVersion(version) => SchemaErrorView::UnsupportedVersion(
                version@,
            ),
            SchemaError::UnsupportedClass(class) => SchemaErrorView::UnsupportedClass(class@),
            SchemaError::MissingClass => SchemaErrorView::MissingClass,
        }
    }
}

/// The message of an error.
pub open spec fn schema_error_text(error: SchemaErrorView) -> Seq<char> {
    match error {
        SchemaErrorView::MissingVersion => "Failed to determine CWL specification version."@,
        SchemaErrorView::UnsupportedVersion(version) => "Unsupported CWL version: "@ + version,
        SchemaErrorView::UnsupportedClass(class) => "Unsupported CWL document class: "@ + class,
        SchemaErrorView::MissingClass => "Failed to determine CWL document class."@,
    }
}

impl SchemaError {
    /// The message of this error.
    pub fn to_string(&self) -> (text: String)
        ensures
            text@ == schema_error_text(self.deep_view()),
    {
        match self {
            SchemaError::MissingVersion => "Failed to determine CWL specification version.".to_string(),
            SchemaError::UnsupportedVersion(version) => {
                let mut text = "Unsupported CWL version: ".to_string();
                text.append(version.as_str());
                text
            },
            SchemaError::UnsupportedClass(class) => {
                let mut text = "Unsupported CWL document class: ".to_string();
                text.append(class.as_str());
                text
            },
            SchemaError::MissingClass => "Failed to determine CWL document class.".to_string(),
        }
    }
}

/// The kind of a document that states `version` and `class`. The version is
/// looked at first: it must be there and be `v1.2`. Then the class must be
/// there and be `CommandLineTool` or `Workflow`.
pub open spec fn document_class(version: Option<Seq<char>>, class: Option<Seq<char>>) -> Result<
    DocumentClass,
    SchemaErrorView,
> {
    match version {
        None => Err(SchemaErrorView::MissingVersion),
        Some(v) => if v != "v1.2"@ {
            Err(SchemaErrorView::UnsupportedVersion(v))
        } else {
            match class {
                None => Err(SchemaErrorView::MissingClass),
                Some(c) => if c == "CommandLineTool"@ {
                    Ok(DocumentClass::CommandLineTool)
                } else if c == "Workflow"@ {
                    Ok(DocumentClass::Workflow)
                } else {
                    Err(SchemaErrorView::UnsupportedClass(c))
                },
            }
        },
    }
}

/// View of the result of a check.
pub open spec fn class_view(result: Result<DocumentClass, SchemaError>) -> Result<
    DocumentClass,
    SchemaErrorView,
> {
    match result {
        Ok(class) => Ok(class),
        Err(error) => Err(error.deep_view()),
    }
}

impl CwlSchema {
    /// Tells the kind of a document from the version and the class that it
    /// states, before the rest of it is read.
    pub fn class_of(version: Option<&str>, class: Option<&str>) -> (result: Result<
        DocumentClass,
        SchemaError,
    >)
        ensures
            class_view(result) == document_class(version.deep_view(), class.deep_view()),
    {
        let version = match version {
            Some(v) => v,
            None => {
                return Err(SchemaError::MissingVersion);
            },
        };
        if !str_eq(version, "v1.2") {
            return Err(SchemaError::UnsupportedVersion(version.to_string()));
        }
        match class {
            None => Err(SchemaError::MissingClass),
            Some(c) => {
                if str_eq(c, "CommandLineTool") {
                    Ok(DocumentClass::CommandLineTool)
                } else if str_eq(c, "Workflow") {
                    Ok(DocumentClass::Workflow)
                } else {
                    Err(SchemaError::UnsupportedClass(c.to_string()))
                }
            },
        }
    }

    /// The kind of this document.
    pub fn class(&self) -> (class: DocumentClass)
        ensures
            class == match self {
                CwlSchema::CommandLineTool(_) => DocumentClass::CommandLineTool,
                CwlSchema::Workflow(_) => DocumentClass::Workflow,
            },
    {
        match self {
            CwlSchema::CommandLineTool(_) => DocumentClass::CommandLineTool,
            CwlSchema::Workflow(_) => DocumentClass::Workflow,
        }
    }
}

} // verus!
