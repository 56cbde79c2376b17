//! Iteration fixtures.

use vstd::prelude::*;

use super::FIXTURE_TIMESTAMP;
use crate::workflow::adapters::memory::{iteration_saved, InMemoryWorkflowStore};
use crate::workflow::domain::iteration::Iteration;
use crate::workflow::ports::WorkflowError;
use crate::workflow::runtime::Outcome;

verus! {

/// `it` is a fixture iteration of these arguments, before it ends.
pub open spec fn is_fixture_iteration(
    it: Iteration,
    id: Seq<char>,
    task_id: Seq<char>,
    stage: Seq<char>,
    number: u32,
    session_id: Seq<char>,
) -> bool {
    &&& it.id@ == id
    &&& it.task_id@ == task_id
    &&& it.stage@ == stage
    &&& it.iteration_number == number
    &&& it.started_at@ == FIXTURE_TIMESTAMP@
    &&& it.stage_session_id matches Some(s) && s@ == session_id
    &&& it.incoming_context is None
    &&& !it.trigger_delivered
}

/// `store` holds `it` as saved, and nothing else changed.
pub open spec fn saved_iteration_only(old_store: InMemoryWorkflowStore, new_store: InMemoryWorkflowStore, it: Iteration) -> bool {
    &&& iteration_saved(old_store.stored_iterations(), new_store.stored_iterations(), it)
    &&& new_store.stored_tasks() == old_store.stored_tasks()
    &&& new_store.stored_sessions() == old_store.stored_sessions()
    &&& new_store.id_counter() == old_store.id_counter()
}

/// Saves an active iteration linked to a session.
pub fn save_iteration(
    store: &mut InMemoryWorkflowStore,
    id: &str,
    task_id: &str,
    stage: &str,
    number: u32,
    session_id: &str,
) -> (r: Result<Iteration, WorkflowError>)
    ensures
        r matches Ok(it) && is_fixture_iteration(it, id@, task_id@, stage@, number, session_id@)
            && it.ended_at is None && it.outcome is None && saved_iteration_only(*old(store), *final(store), it),
{
    let iteration = Iteration::new(id, task_id, stage, number, FIXTURE_TIMESTAMP).with_stage_session_id(session_id);
    match store.save_iteration(&iteration) {
        Ok(()) => Ok(iteration),
        Err(e) => Err(e),
    }
}

/// Saves an iteration that ended approved.
pub fn save_approved_iteration(
    store: &mut InMemoryWorkflowStore,
    id: &str,
    task_id: &str,
    stage: &str,
    number: u32,
    session_id: &str,
) -> (r: Result<Iteration, WorkflowError>)
    ensures
        r matches Ok(it) && is_fixture_iteration(it, id@, task_id@, stage@, number, session_id@)
            && (it.ended_at matches Some(e) && e@ == FIXTURE_TIMESTAMP@) && it.outcome == Some(Outcome::Approved)
            && saved_iteration_only(*old(store), *final(store), it),
{
    let mut iteration = Iteration::new(id, task_id, stage, number, FIXTURE_TIMESTAMP).with_stage_session_id(
        session_id,
    );
    iteration.end(FIXTURE_TIMESTAMP, Outcome::Approved);
    match store.save_iteration(&iteration) {
        Ok(()) => Ok(iteration),
        Err(e) => Err(e),
    }
}

/// Saves an iteration that ended rejected with feedback.
pub fn save_rejected_iteration(
    store: &mut InMemoryWorkflowStore,
    id: &str,
    task_id: &str,
    stage: &str,
    number: u32,
    session_id: &str,
    feedback: &str,
) -> (r: Result<Iteration, WorkflowError>)
    ensures
        r matches Ok(it) && is_fixture_iteration(it, id@, task_id@, stage@, number, session_id@)
            && (it.ended_at matches Some(e) && e@ == FIXTURE_TIMESTAMP@)
            && (it.outcome matches Some(Outcome::Rejected { stage: s, feedback: f }) && s@ == stage@ && f@ == feedback@)
            && saved_iteration_only(*old(store), *final(store), it),
{
    let mut iteration = Iteration::new(id, task_id, stage, number, FIXTURE_TIMESTAMP).with_stage_session_id(
        session_id,
    );
    iteration.end(FIXTURE_TIMESTAMP, Outcome::rejected(stage, feedback));
    match store.save_iteration(&iteration) {
        Ok(()) => Ok(iteration),
        Err(e) => Err(e),
    }
}

} // verus!
