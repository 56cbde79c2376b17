//! Loading a workflow configuration: the checks made once the YAML has been
//! read and parsed.

use vstd::prelude::*;

use crate::text::{join_strings, join_with, owned, push_str};
use crate::workflow::config::validation::message_texts;
use crate::workflow::config::workflow::WorkflowConfig;

verus! {

/// Why a workflow could not be loaded.
#[derive(Debug)]
pub enum LoadError {
    /// No workflow file at the path.
    NotFound(String),
    /// The file could not be read.
    Io(String),
    /// The YAML did not parse.
    Parse(String),
    /// The workflow is invalid: its validation errors joined with `"; "`.
    Validation(String),
}

/// How a load error reads.
pub open spec fn load_error_text(e: LoadError) -> Seq<char> {
    match e {
        LoadError::NotFound(p) => "No workflow.yaml found at "@ + p@
            + " — Orkestra requires a workflow.yaml to operate"@,
        LoadError::Io(m) => "Failed to read workflow file: "@ + m@,
        LoadError::Parse(m) => "Failed to parse workflow YAML: "@ + m@,
        LoadError::Validation(m) => "Invalid workflow configuration: "@ + m@,
    }
}

impl LoadError {
    /// The error as text.
    pub fn to_string(&self) -> (r: String)
        ensures
            r@ == load_error_text(*self),
    {
        match self {
            LoadError::NotFound(p) => {
                let mut s = owned("No workflow.yaml found at ");
                push_str(&mut s, p.as_str());
                push_str(&mut s, " — Orkestra requires a workflow.yaml to operate");
                s
            },
            LoadError::Io(m) => {
                let mut s = owned("Failed to read workflow file: ");
                push_str(&mut s, m.as_str());
                s
            },
            LoadError::Parse(m) => {
                let mut s = owned("Failed to parse workflow YAML: ");
                push_str(&mut s, m.as_str());
                s
            },
            LoadError::Validation(m) => {
                let mut s = owned("Invalid workflow configuration: ");
                push_str(&mut s, m.as_str());
                s
            },
        }
    }
}

/// Accepts a parsed workflow when it validates; otherwise reports all its
/// validation errors, joined with `"; "`.
pub fn accept_workflow(config: WorkflowConfig) -> (r: Result<WorkflowConfig, LoadError>)
    ensures
        config.validation_errors().len() == 0 ==> r == Ok::<WorkflowConfig, LoadError>(config),
        config.validation_errors().len() > 0 ==> (r matches Err(LoadError::Validation(m)) && m@ == join_with(
            config.validation_errors(),
            "; "@,
        )),
{
    let errors = config.validate();
    if errors.len() > 0 {
        assert(message_texts(errors@) =~= crate::text::strings_view(errors@));
        return Err(LoadError::Validation(join_strings(&errors, "; ")));
    }
    Ok(config)
}

} // verus!
