//! Errors of workflow operations.

use vstd::prelude::*;

verus! {

/// Why a workflow operation failed.
#[derive(Debug, Clone, PartialEq, Eq)]
pub enum WorkflowError {
    /// No task has the given id.
    TaskNotFound(String),
    /// The task is not in a state that allows the operation.
    InvalidTransition(String),
    /// Stored data contradicts what the operation expects.
    InvalidState(String),
}

} // verus!
