//! Stage session fixtures.

use vstd::prelude::*;

use super::FIXTURE_TIMESTAMP;
use crate::workflow::adapters::memory::{sessions_after_save, InMemoryWorkflowStore};
use crate::workflow::domain::stage_session::{SessionState, StageSession};
use crate::workflow::ports::WorkflowError;

verus! {

/// `s` is a fixture session of these arguments, with no agent session id.
pub open spec fn is_fixture_session(s: StageSession, id: Seq<char>, task_id: Seq<char>, stage: Seq<char>) -> bool {
    &&& s.id@ == id
    &&& s.task_id@ == task_id
    &&& s.stage@ == stage
    &&& s.claude_session_id is None
    &&& s.resume_count == 0
    &&& s.created_at@ == FIXTURE_TIMESTAMP@
    &&& s.updated_at@ == FIXTURE_TIMESTAMP@
}

/// `store` holds `s` as saved, and nothing else changed.
pub open spec fn saved_session_only(old_store: InMemoryWorkflowStore, new_store: InMemoryWorkflowStore, s: StageSession) -> bool {
    &&& new_store.stored_sessions() == sessions_after_save(old_store.stored_sessions(), s)
    &&& new_store.stored_tasks() == old_store.stored_tasks()
    &&& new_store.stored_iterations() == old_store.stored_iterations()
    &&& new_store.id_counter() == old_store.id_counter()
}

/// Saves an active session for a task's stage.
pub fn save_session(store: &mut InMemoryWorkflowStore, id: &str, task_id: &str, stage: &str) -> (r: Result<StageSession, WorkflowError>)
    ensures
        r matches Ok(s) && is_fixture_session(s, id@, task_id@, stage@) && s.agent_pid is None && s.session_state
            == SessionState::Active && saved_session_only(*old(store), *final(store), s),
{
    let session = StageSession::new(id, task_id, stage, FIXTURE_TIMESTAMP);
    match store.save_stage_session(&session) {
        Ok(()) => Ok(session),
        Err(e) => Err(e),
    }
}

/// Saves a session whose agent process runs as `pid`.
pub fn save_session_with_pid(
    store: &mut InMemoryWorkflowStore,
    id: &str,
    task_id: &str,
    stage: &str,
    pid: u32,
) -> (r: Result<StageSession, WorkflowError>)
    ensures
        r matches Ok(s) && is_fixture_session(s, id@, task_id@, stage@) && s.agent_pid == Some(pid)
            && s.session_state == SessionState::Active && saved_session_only(*old(store), *final(store), s),
{
    let mut session = StageSession::new(id, task_id, stage, FIXTURE_TIMESTAMP);
    session.agent_spawned(pid, None, FIXTURE_TIMESTAMP);
    match store.save_stage_session(&session) {
        Ok(()) => Ok(session),
        Err(e) => Err(e),
    }
}

/// Saves a completed session.
pub fn save_completed_session(store: &mut InMemoryWorkflowStore, id: &str, task_id: &str, stage: &str) -> (r: Result<StageSession, WorkflowError>)
    ensures
        r matches Ok(s) && is_fixture_session(s, id@, task_id@, stage@) && s.agent_pid is None && s.session_state
            == SessionState::Completed && saved_session_only(*old(store), *final(store), s),
{
    let mut session = StageSession::new(id, task_id, stage, FIXTURE_TIMESTAMP);
    session.complete(FIXTURE_TIMESTAMP);
    match store.save_stage_session(&session) {
        Ok(()) => Ok(session),
        Err(e) => Err(e),
    }
}

} // verus!
