//! Parks a task at `AwaitingApproval` when its agent produced plain text
//! with no structured output.

use vstd::prelude::*;

use crate::text::{owned, push_str};
use crate::workflow::adapters::memory::{
    first_where, lemma_first_where_props, task_saved, task_with_id, InMemoryWorkflowStore,
};
use crate::workflow::clock::utc_now_rfc3339;
use crate::workflow::domain::task::{same_task, Task};
use crate::workflow::ports::WorkflowError;
use crate::workflow::runtime::TaskState;

verus! {

/// The refusal for a task whose agent is not working.
pub open spec fn not_working_text(state: TaskState) -> Seq<char> {
    "Cannot park plain text in state "@ + state.spec_name() + " (expected AgentWorking)"@
}

/// `t` is `before` parked for approval in `stage` at `now`.
pub open spec fn parked(before: Task, t: Task, stage: Seq<char>, now: Seq<char>) -> bool {
    &&& t.state matches TaskState::AwaitingApproval { stage: s } && s@ == stage
    &&& t.updated_at@ == now
    &&& same_task(Task { state: before.state, updated_at: before.updated_at, ..t }, before)
}

/// Parks the task `task_id`, stamping it with `now`.
///
/// Fails with `TaskNotFound` when no task has the id and with
/// `InvalidTransition` unless its agent is working; the store is then
/// unchanged. Otherwise the parked task is saved and returned.
#[verifier::rlimit(60)]
pub fn park_at(store: &mut InMemoryWorkflowStore, task_id: &str, now: &str) -> (r: Result<Task, WorkflowError>)
    ensures
        match first_where(old(store).stored_tasks(), task_with_id(task_id@)) {
            None => (r matches Err(WorkflowError::TaskNotFound(id)) && id@ == task_id@) && *final(store) == *old(store),
            Some(i) => {
                let before = old(store).stored_tasks()[i];
                match before.state {
                    TaskState::AgentWorking { stage } => r matches Ok(t) && parked(before, t, stage@, now@)
                        && task_saved(old(store).stored_tasks(), final(store).stored_tasks(), t)
                        && final(store).stored_iterations() == old(store).stored_iterations()
                        && final(store).stored_sessions() == old(store).stored_sessions()
                        && final(store).stored_logs() == old(store).stored_logs()
                        && final(store).id_counter() == old(store).id_counter(),
                    _ => (r matches Err(WorkflowError::InvalidTransition(m)) && m@ == not_working_text(before.state))
                        && *final(store) == *old(store),
                }
            },
        },
{
    proof {
        lemma_first_where_props(store.stored_tasks(), task_with_id(task_id@));
    }
    let mut task = match store.get_task(task_id) {
        Ok(Some(t)) => t,
        Ok(None) => return Err(WorkflowError::TaskNotFound(owned(task_id))),
        Err(e) => return Err(e),
    };
    let stage = match &task.state {
        TaskState::AgentWorking { stage } => stage.clone(),
        _ => {
            let mut m = owned("Cannot park plain text in state ");
            push_str(&mut m, task.state.name());
            push_str(&mut m, " (expected AgentWorking)");
            return Err(WorkflowError::InvalidTransition(m));
        },
    };
    let ghost before = task;
    task.state = TaskState::awaiting_approval(stage.as_str());
    task.updated_at = owned(now);
    match store.save_task(&task) {
        Ok(()) => Ok(task),
        Err(e) => Err(e),
    }
}

/// Parks the task `task_id` at the current time (see [`park_at`]).
pub fn execute(store: &mut InMemoryWorkflowStore, task_id: &str) -> (r: Result<Task, WorkflowError>)
    ensures
        match first_where(old(store).stored_tasks(), task_with_id(task_id@)) {
            None => (r matches Err(WorkflowError::TaskNotFound(id)) && id@ == task_id@) && *final(store) == *old(store),
            Some(i) => {
                let before = old(store).stored_tasks()[i];
                match before.state {
                    TaskState::AgentWorking { stage } => r matches Ok(t) && parked(before, t, stage@, t.updated_at@)
                        && task_saved(old(store).stored_tasks(), final(store).stored_tasks(), t)
                        && final(store).stored_iterations() == old(store).stored_iterations()
                        && final(store).stored_sessions() == old(store).stored_sessions()
                        && final(store).stored_logs() == old(store).stored_logs()
                        && final(store).id_counter() == old(store).id_counter(),
                    _ => (r matches Err(WorkflowError::InvalidTransition(m)) && m@ == not_working_text(before.state))
                        && *final(store) == *old(store),
                }
            },
        },
{
    proof {
        lemma_first_where_props(store.stored_tasks(), task_with_id(task_id@));
    }
    let now = utc_now_rfc3339();
    park_at(store, task_id, now.as_str())
}

} // verus!
