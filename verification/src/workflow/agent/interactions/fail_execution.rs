//! Fails a task whose agent execution failed (a crash, a poll error, a spawn
//! failure): the stage's active iteration ends with the agent's error, the
//! error is written to the stage session's log, and the task fails.

use vstd::prelude::*;

use crate::text::{owned, push_str};
use crate::workflow::adapters::memory::{
    first_where, iteration_filter, iteration_saved, latest_of, lemma_first_where_props, session_in,
    task_saved, task_with_id, InMemoryWorkflowStore, SessionLogEntry,
};
use crate::workflow::clock::utc_now_rfc3339;
use crate::workflow::domain::iteration::{same_iteration, Iteration};
use crate::workflow::domain::log_entry::LogEntry;
use crate::workflow::domain::sorting::keep;
use crate::workflow::domain::task::{same_task, Task};
use crate::workflow::ports::WorkflowError;
use crate::workflow::runtime::{Outcome, TaskState};

verus! {

/// The refusal for a task whose agent is not working.
pub open spec fn not_working_text(state: TaskState) -> Seq<char> {
    "Cannot fail agent execution in state "@ + state.spec_name() + " (expected AgentWorking)"@
}

/// `t` is `before` failed in `stage` with `error` at `now`.
pub open spec fn failed(before: Task, t: Task, stage: Seq<char>, error: Seq<char>, now: Seq<char>) -> bool {
    &&& t.state matches TaskState::Failed { stage: Some(s), error: e } && s@ == stage && e@ == error
    &&& t.updated_at@ == now
    &&& same_task(Task { state: before.state, updated_at: before.updated_at, ..t }, before)
}

/// `x` is the iteration `m` ended at `now` with the agent's `error`.
pub open spec fn ended_with_error(m: Iteration, x: Iteration, now: Seq<char>, error: Seq<char>) -> bool {
    &&& x.ended_at matches Some(e) && e@ == now
    &&& x.outcome matches Some(Outcome::AgentError { error: er }) && er@ == error
    &&& same_iteration(Iteration { ended_at: m.ended_at, outcome: m.outcome, ..x }, m)
}

/// The active iteration of a task's stage: the highest-numbered one that has
/// not ended.
pub open spec fn active_iteration(its: Seq<Iteration>, task_id: Seq<char>, stage: Seq<char>) -> Option<Iteration> {
    latest_of(keep(its, iteration_filter(Some(task_id), Some(stage), true)))
}

/// What failing does to the iterations: the active one, if any, is ended.
pub open spec fn iterations_after(
    old_its: Seq<Iteration>,
    new_its: Seq<Iteration>,
    task_id: Seq<char>,
    stage: Seq<char>,
    error: Seq<char>,
    now: Seq<char>,
) -> bool {
    match active_iteration(old_its, task_id, stage) {
        Some(m) => exists|x: Iteration| ended_with_error(m, x, now, error) && iteration_saved(old_its, new_its, x),
        None => new_its == old_its,
    }
}

/// What failing does to the logs: the error is written to the stage
/// session's log, tagged with the active iteration, when the stage has a
/// session.
pub open spec fn logs_after(
    old_logs: Seq<SessionLogEntry>,
    new_logs: Seq<SessionLogEntry>,
    sessions: Seq<crate::workflow::domain::stage_session::StageSession>,
    active: Option<Iteration>,
    task_id: Seq<char>,
    stage: Seq<char>,
    error: Seq<char>,
) -> bool {
    match first_where(sessions, session_in(task_id, stage)) {
        Some(i) => {
            &&& new_logs.len() == old_logs.len() + 1
            &&& new_logs.drop_last() == old_logs
            &&& new_logs.last().session_id@ == sessions[i].id@
            &&& new_logs.last().entry matches LogEntry::Error { message } && message@ == error
            &&& (match new_logs.last().iteration_id {
                Some(x) => Some(x@),
                None => None,
            }) == (match active {
                Some(m) => Some(m.id@),
                None => None,
            })
        },
        None => new_logs == old_logs,
    }
}

/// Fails the agent execution of the task `task_id` with `error` at `now`.
///
/// Fails with `TaskNotFound` when no task has the id and with
/// `InvalidTransition` unless its agent is working; the store is then
/// unchanged. Otherwise the stage's active iteration ends with the error,
/// the error goes to the stage session's log (the session itself, and the
/// agent session id it holds, stay as they are), and the failed task is
/// saved and returned.
#[verifier::rlimit(60)]
pub fn fail_at(store: &mut InMemoryWorkflowStore, task_id: &str, error: &str, now: &str) -> (r: Result<
    Task,
    WorkflowError,
>)
    ensures
        match first_where(old(store).stored_tasks(), task_with_id(task_id@)) {
            None => (r matches Err(WorkflowError::TaskNotFound(id)) && id@ == task_id@) && *final(store) == *old(store),
            Some(i) => {
                let before = old(store).stored_tasks()[i];
                match before.state {
                    TaskState::AgentWorking { stage } => r matches Ok(t) && failed(before, t, stage@, error@, now@)
                        && task_saved(old(store).stored_tasks(), final(store).stored_tasks(), t)
                        && iterations_after(
                        old(store).stored_iterations(),
                        final(store).stored_iterations(),
                        task_id@,
                        stage@,
                        error@,
                        now@,
                    ) && logs_after(
                        old(store).stored_logs(),
                        final(store).stored_logs(),
                        old(store).stored_sessions(),
                        active_iteration(old(store).stored_iterations(), task_id@, stage@),
                        task_id@,
                        stage@,
                        error@,
                    ) && final(store).stored_sessions() == old(store).stored_sessions()
                        && final(store).id_counter() == old(store).id_counter(),
                    _ => (r matches Err(WorkflowError::InvalidTransition(m)) && m@ == not_working_text(before.state))
                        && *final(store) == *old(store),
                }
            },
        },
{
    proof {
        lemma_first_where_props(store.stored_tasks(), task_with_id(task_id@));
    }
    let mut task = match store.get_task(task_id) {
        Ok(Some(t)) => t,
        Ok(None) => return Err(WorkflowError::TaskNotFound(owned(task_id))),
        Err(e) => return Err(e),
    };
    let stage = match &task.state {
        TaskState::AgentWorking { stage } => stage.clone(),
        _ => {
            let mut m = owned("Cannot fail agent execution in state ");
            push_str(&mut m, task.state.name());
            push_str(&mut m, " (expected AgentWorking)");
            return Err(WorkflowError::InvalidTransition(m));
        },
    };
    let ghost before = task;
    let ghost old_store = *store;
    let active = match store.get_active_iteration(task_id, stage.as_str()) {
        Ok(a) => a,
        Err(e) => return Err(e),
    };
    let iteration_id = match &active {
        Some(it) => Some(it.id.clone()),
        None => None,
    };
    if let Some(mut it) = active {
        let ghost m = active_iteration(old_store.stored_iterations(), task_id@, stage@).unwrap();
        it.end(now, Outcome::AgentError { error: owned(error) });
        let _ = store.save_iteration(&it);
        assert(ended_with_error(m, it, now@, error@));
    }
    let session = match store.get_stage_session(task_id, stage.as_str()) {
        Ok(s) => s,
        Err(e) => return Err(e),
    };
    if let Some(s) = session {
        let iid = match &iteration_id {
            Some(x) => Some(x.as_str()),
            None => None,
        };
        let _ = store.append_log_entry(s.id.as_str(), LogEntry::Error { message: owned(error) }, iid);
    }
    task.state = TaskState::failed_at(stage.as_str(), error);
    task.updated_at = owned(now);
    match store.save_task(&task) {
        Ok(()) => Ok(task),
        Err(e) => Err(e),
    }
}

/// Fails the agent execution of the task `task_id` with `error` at the
/// current time (see [`fail_at`]): the stage's active iteration ends with
/// the error at that time, which is also the failed task's `updated_at`;
/// the error is logged to the stage session; the task fails.
pub fn execute(store: &mut InMemoryWorkflowStore, task_id: &str, error: &str) -> (r: Result<Task, WorkflowError>)
    ensures
        match first_where(old(store).stored_tasks(), task_with_id(task_id@)) {
            None => (r matches Err(WorkflowError::TaskNotFound(id)) && id@ == task_id@) && *final(store) == *old(store),
            Some(i) => {
                let before = old(store).stored_tasks()[i];
                match before.state {
                    TaskState::AgentWorking { stage } => r matches Ok(t) && failed(
                        before,
                        t,
                        stage@,
                        error@,
                        t.updated_at@,
                    ) && task_saved(old(store).stored_tasks(), final(store).stored_tasks(), t)
                        && iterations_after(
                        old(store).stored_iterations(),
                        final(store).stored_iterations(),
                        task_id@,
                        stage@,
                        error@,
                        t.updated_at@,
                    ) && logs_after(
                        old(store).stored_logs(),
                        final(store).stored_logs(),
                        old(store).stored_sessions(),
                        active_iteration(old(store).stored_iterations(), task_id@, stage@),
                        task_id@,
                        stage@,
                        error@,
                    ) && final(store).stored_sessions() == old(store).stored_sessions()
                        && final(store).id_counter() == old(store).id_counter(),
                    _ => (r matches Err(WorkflowError::InvalidTransition(m)) && m@ == not_working_text(before.state))
                        && *final(store) == *old(store),
                }
            },
        },
{
    proof {
        lemma_first_where_props(store.stored_tasks(), task_with_id(task_id@));
    }
    let now = utc_now_rfc3339();
    fail_at(store, task_id, error, now.as_str())
}

} // verus!
