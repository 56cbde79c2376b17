//! Marks an agent as started on a queued task: the task's agent is working.

use vstd::prelude::*;

use crate::text::{owned, push_str};
use crate::workflow::adapters::memory::{
    first_where, lemma_first_where_props, task_saved, task_with_id, InMemoryWorkflowStore,
};
use crate::workflow::clock::utc_now_rfc3339;
use crate::workflow::domain::task::{same_task, Task};
use crate::workflow::ports::WorkflowError;
use crate::workflow::runtime::TaskState;

verus! {

/// The refusal for a task that is not queued.
pub open spec fn not_queued_text(state: TaskState) -> Seq<char> {
    "Agent cannot start in state "@ + state.spec_name() + " (expected Queued)"@
}

/// `t` is `before` with its agent working in `stage` since `now`.
pub open spec fn started(before: Task, t: Task, stage: Seq<char>, now: Seq<char>) -> bool {
    &&& t.state matches TaskState::AgentWorking { stage: s } && s@ == stage
    &&& t.updated_at@ == now
    &&& same_task(Task { state: before.state, updated_at: before.updated_at, ..t }, before)
}

/// Marks the agent of the task `task_id` as working, stamping it with `now`.
///
/// Fails with `TaskNotFound` when no task has the id and with
/// `InvalidTransition` unless it is queued; the store is then unchanged.
/// Otherwise the updated task is saved and returned.
#[verifier::rlimit(60)]
pub fn start_at(store: &mut InMemoryWorkflowStore, task_id: &str, now: &str) -> (r: Result<Task, WorkflowError>)
    ensures
        match first_where(old(store).stored_tasks(), task_with_id(task_id@)) {
            None => (r matches Err(WorkflowError::TaskNotFound(id)) && id@ == task_id@) && *final(store) == *old(store),
            Some(i) => {
                let before = old(store).stored_tasks()[i];
                match before.state {
                    TaskState::Queued { stage } => r matches Ok(t) && started(before, t, stage@, now@)
                        && task_saved(old(store).stored_tasks(), final(store).stored_tasks(), t)
                        && final(store).stored_iterations() == old(store).stored_iterations()
                        && final(store).stored_sessions() == old(store).stored_sessions()
                        && final(store).stored_logs() == old(store).stored_logs()
                        && final(store).id_counter() == old(store).id_counter(),
                    _ => (r matches Err(WorkflowError::InvalidTransition(m)) && m@ == not_queued_text(before.state))
                        && *final(store) == *old(store),
                }
            },
        },
{
    proof {
        lemma_first_where_props(store.stored_tasks(), task_with_id(task_id@));
    }
    let mut task = match store.get_task(task_id) {
        Ok(Some(t)) => t,
        Ok(None) => return Err(WorkflowError::TaskNotFound(owned(task_id))),
        Err(e) => return Err(e),
    };
    let stage = match &task.state {
        TaskState::Queued { stage } => stage.clone(),
        _ => {
            let mut m = owned("Agent cannot start in state ");
            push_str(&mut m, task.state.name());
            push_str(&mut m, " (expected Queued)");
            return Err(WorkflowError::InvalidTransition(m));
        },
    };
    let ghost before = task;
    task.state = TaskState::agent_working(stage.as_str());
    task.updated_at = owned(now);
    match store.save_task(&task) {
        Ok(()) => Ok(task),
        Err(e) => Err(e),
    }
}

/// Marks the agent of the task `task_id` as working at the current time (see
/// [`start_at`]).
pub fn execute(store: &mut InMemoryWorkflowStore, task_id: &str) -> (r: Result<Task, WorkflowError>)
    ensures
        match first_where(old(store).stored_tasks(), task_with_id(task_id@)) {
            None => (r matches Err(WorkflowError::TaskNotFound(id)) && id@ == task_id@) && *final(store) == *old(store),
            Some(i) => {
                let before = old(store).stored_tasks()[i];
                match before.state {
                    TaskState::Queued { stage } => r matches Ok(t) && started(before, t, stage@, t.updated_at@)
                        && task_saved(old(store).stored_tasks(), final(store).stored_tasks(), t)
                        && final(store).stored_iterations() == old(store).stored_iterations()
                        && final(store).stored_sessions() == old(store).stored_sessions()
                        && final(store).stored_logs() == old(store).stored_logs()
                        && final(store).id_counter() == old(store).id_counter(),
                    _ => (r matches Err(WorkflowError::InvalidTransition(m)) && m@ == not_queued_text(before.state))
                        && *final(store) == *old(store),
                }
            },
        },
{
    proof {
        lemma_first_where_props(store.stored_tasks(), task_with_id(task_id@));
    }
    let now = utc_now_rfc3339();
    start_at(store, task_id, now.as_str())
}

} // verus!
