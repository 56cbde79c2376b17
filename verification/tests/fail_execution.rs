//! Failing a task whose agent execution failed.

use orkestra_core::testutil::fixtures::{iterations, sessions, tasks};
use orkestra_core::workflow::adapters::memory::InMemoryWorkflowStore;
use orkestra_core::workflow::agent::interactions::fail_execution::execute;
use orkestra_core::workflow::domain::log_entry::LogEntry;
use orkestra_core::workflow::domain::stage_session::StageSession;
use orkestra_core::workflow::domain::task::Task;
use orkestra_core::workflow::runtime::{Outcome, TaskState};

fn setup_agent_working_task(store: &mut InMemoryWorkflowStore) -> (Task, StageSession) {
    let mut task = tasks::save_task(store, "task-1", "planning", "Test", "Desc").unwrap();
    task.state = TaskState::agent_working("planning");
    store.save_task(&task).unwrap();

    let session = sessions::save_session(store, "session-1", "task-1", "planning").unwrap();
    iterations::save_iteration(store, "iter-1", "task-1", "planning", 1, "session-1").unwrap();

    (task, session)
}

#[test]
fn test_session_id_preserved_on_error() {
    let mut store = InMemoryWorkflowStore::new();
    let (_, mut session) = setup_agent_working_task(&mut store);

    session.claude_session_id = Some("agent-session-abc".to_string());
    store.save_stage_session(&session).unwrap();

    execute(&mut store, "task-1", "boom").unwrap();

    let saved = store.get_stage_session("task-1", "planning").unwrap().unwrap();
    assert_eq!(
        saved.claude_session_id.as_deref(),
        Some("agent-session-abc"),
        "the agent session id must be preserved on error"
    );
}

#[test]
fn test_error_log_entry_emitted_on_failure() {
    let mut store = InMemoryWorkflowStore::new();
    let (_, session) = setup_agent_working_task(&mut store);

    execute(&mut store, "task-1", "agent crashed").unwrap();

    let entries = store.get_log_entries(&session.id).unwrap();
    let has_error = entries
        .iter()
        .any(|e| matches!(e, LogEntry::Error { message } if message == "agent crashed"));
    assert!(has_error, "expected LogEntry::Error in session log after failure");
}

#[test]
fn failure_ends_iteration_and_fails_task() {
    let mut store = InMemoryWorkflowStore::new();
    setup_agent_working_task(&mut store);
    let task = execute(&mut store, "task-1", "boom").unwrap();
    assert_eq!(task.state, TaskState::failed_at("planning", "boom"));
    assert!(store.get_active_iteration("task-1", "planning").unwrap().is_none());
    let it = store.get_latest_iteration("task-1", "planning").unwrap().unwrap();
    assert_eq!(it.outcome, Some(Outcome::AgentError { error: "boom".to_string() }));
    let err = execute(&mut store, "task-1", "again").unwrap_err();
    assert!(format!("{err:?}").contains("Cannot fail agent execution in state Failed"));
}
