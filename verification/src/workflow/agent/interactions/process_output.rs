//! Processing an agent's output when the agent ends its stage itself: it
//! reports failure or that the task is blocked. The stage's active
//! iteration ends with that outcome and the task takes the matching state.

use vstd::prelude::*;

use crate::text::{owned, push_str};
use crate::workflow::adapters::memory::{
    first_where, iteration_saved, lemma_first_where_props, task_saved, task_with_id, InMemoryWorkflowStore,
};
use crate::workflow::agent::interactions::fail_execution::active_iteration;
use crate::workflow::domain::iteration::{same_iteration, Iteration};
use crate::workflow::domain::task::{same_task, Task};
use crate::workflow::ports::WorkflowError;
use crate::workflow::runtime::{Outcome, TaskState};

verus! {

/// How an agent's output ends its stage.
#[derive(Debug, Clone, PartialEq, Eq)]
pub enum OutputEnd {
    /// The agent reports that it failed.
    Failed { error: String },
    /// The agent reports that the task is blocked.
    Blocked { reason: String },
}

/// The refusal for a task whose agent is not working.
pub open spec fn not_working_text(state: TaskState) -> Seq<char> {
    "Cannot process agent output in state "@ + state.spec_name() + " (expected AgentWorking)"@
}

/// The error for a stage without an active iteration.
pub open spec fn no_active_iteration_text(task_id: Seq<char>, stage: Seq<char>) -> Seq<char> {
    "no active iteration for task "@ + task_id + " in stage "@ + stage
}

/// `o` is the iteration outcome that `end` calls for.
pub open spec fn outcome_for(o: Option<Outcome>, end: OutputEnd) -> bool {
    match end {
        OutputEnd::Failed { error } => o matches Some(Outcome::AgentError { error: e }) && e@ == error@,
        OutputEnd::Blocked { reason } => o matches Some(Outcome::Blocked { reason: x }) && x@ == reason@,
    }
}

/// `s` is the task state that `end` calls for in `stage`.
pub open spec fn state_for(s: TaskState, stage: Seq<char>, end: OutputEnd) -> bool {
    match end {
        OutputEnd::Failed { error } => s matches TaskState::Failed { stage: Some(st), error: e } && st@ == stage
            && e@ == error@,
        OutputEnd::Blocked { reason } => s matches TaskState::Blocked { stage: Some(st), reason: x } && st@ == stage
            && x@ == reason@,
    }
}

/// `t` is `before` with its stage ended by `end` at `now`.
pub open spec fn stage_ended(before: Task, t: Task, stage: Seq<char>, end: OutputEnd, now: Seq<char>) -> bool {
    &&& state_for(t.state, stage, end)
    &&& t.updated_at@ == now
    &&& same_task(Task { state: before.state, updated_at: before.updated_at, ..t }, before)
}

/// `x` is the iteration `m` ended at `now` with the outcome `end` calls for.
pub open spec fn iteration_ended(m: Iteration, x: Iteration, now: Seq<char>, end: OutputEnd) -> bool {
    &&& x.ended_at matches Some(e) && e@ == now
    &&& outcome_for(x.outcome, end)
    &&& same_iteration(Iteration { ended_at: m.ended_at, outcome: m.outcome, ..x }, m)
}

/// Ends the stage of the task `task_id` as the agent's output `end` says, at
/// `now`.
///
/// Fails with `TaskNotFound` when no task has the id, with
/// `InvalidTransition` unless its agent is working, and with `InvalidState`
/// when the stage has no active iteration; the store is then unchanged.
/// Otherwise the active iteration ends with `AgentError` (for a failure) or
/// `Blocked` (for a block), the task becomes failed or blocked in its stage,
/// and the task is saved and returned; nothing else in the store changes.
#[verifier::rlimit(60)]
pub fn end_stage_at(store: &mut InMemoryWorkflowStore, task_id: &str, end: &OutputEnd, now: &str) -> (r: Result<
    Task,
    WorkflowError,
>)
    ensures
        match first_where(old(store).stored_tasks(), task_with_id(task_id@)) {
            None => (r matches Err(WorkflowError::TaskNotFound(id)) && id@ == task_id@) && *final(store) == *old(store),
            Some(i) => {
                let before = old(store).stored_tasks()[i];
                match before.state {
                    TaskState::AgentWorking { stage } => match active_iteration(
                        old(store).stored_iterations(),
                        task_id@,
                        stage@,
                    ) {
                        None => (r matches Err(WorkflowError::InvalidState(m)) && m@ == no_active_iteration_text(
                            task_id@,
                            stage@,
                        )) && *final(store) == *old(store),
                        Some(m) => r matches Ok(t) && stage_ended(before, t, stage@, *end, now@)
                            && task_saved(old(store).stored_tasks(), final(store).stored_tasks(), t)
                            && (exists|x: Iteration| #[trigger]
                            iteration_ended(m, x, now@, *end) && iteration_saved(
                                old(store).stored_iterations(),
                                final(store).stored_iterations(),
                                x,
                            )) && final(store).stored_sessions() == old(store).stored_sessions()
                            && final(store).stored_logs() == old(store).stored_logs()
                            && final(store).id_counter() == old(store).id_counter(),
                    },
                    _ => (r matches Err(WorkflowError::InvalidTransition(m)) && m@ == not_working_text(before.state))
                        && *final(store) == *old(store),
                }
            },
        },
{
    proof {
        lemma_first_where_props(store.stored_tasks(), task_with_id(task_id@));
    }
    let mut task = match store.get_task(task_id) {
        Ok(Some(t)) => t,
        Ok(None) => return Err(WorkflowError::TaskNotFound(owned(task_id))),
        Err(e) => return Err(e),
    };
    let stage = match &task.state {
        TaskState::AgentWorking { stage } => stage.clone(),
        _ => {
            let mut m = owned("Cannot process agent output in state ");
            push_str(&mut m, task.state.name());
            push_str(&mut m, " (expected AgentWorking)");
            return Err(WorkflowError::InvalidTransition(m));
        },
    };
    let ghost before = task;
    let ghost old_store = *store;
    let mut it = match store.get_active_iteration(task_id, stage.as_str()) {
        Ok(Some(it)) => it,
        Ok(None) => {
            let mut m = owned("no active iteration for task ");
            push_str(&mut m, task_id);
            push_str(&mut m, " in stage ");
            push_str(&mut m, stage.as_str());
            return Err(WorkflowError::InvalidState(m));
        },
        Err(e) => return Err(e),
    };
    let ghost m = active_iteration(old_store.stored_iterations(), task_id@, stage@).unwrap();
    match end {
        OutputEnd::Failed { error } => {
            it.end(now, Outcome::AgentError { error: error.clone() });
            task.state = TaskState::failed_at(stage.as_str(), error.as_str());
        },
        OutputEnd::Blocked { reason } => {
            it.end(now, Outcome::Blocked { reason: reason.clone() });
            task.state = TaskState::blocked_at(stage.as_str(), reason.as_str());
        },
    }
    let _ = store.save_iteration(&it);
    assert(iteration_ended(m, it, now@, *end));
    task.updated_at = owned(now);
    match store.save_task(&task) {
        Ok(()) => Ok(task),
        Err(e) => Err(e),
    }
}

/// The id under which an artifact produced in an iteration is stored.
pub open spec fn artifact_id_of(iteration_id: Seq<char>, name: Seq<char>) -> Seq<char> {
    iteration_id + "-"@ + name
}

/// Builds the stored id of the artifact `name` produced in the iteration
/// `iteration_id`.
pub fn workflow_artifact_id(iteration_id: &str, name: &str) -> (r: String)
    ensures
        r@ == artifact_id_of(iteration_id@, name@),
{
    let mut id = owned(iteration_id);
    push_str(&mut id, "-");
    push_str(&mut id, name);
    id
}

} // verus!
