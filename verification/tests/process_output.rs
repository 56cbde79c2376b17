//! An agent's output that ends its stage: failed or blocked.

use orkestra_core::testutil::fixtures::{iterations, sessions, tasks};
use orkestra_core::workflow::adapters::memory::InMemoryWorkflowStore;
use orkestra_core::workflow::agent::interactions::process_output::{end_stage_at, workflow_artifact_id, OutputEnd};
use orkestra_core::workflow::ports::WorkflowError;
use orkestra_core::workflow::runtime::{Outcome, TaskState};

const NOW: &str = "2025-03-01T12:00:00Z";

fn working_task(store: &mut InMemoryWorkflowStore, with_iteration: bool) {
    let mut task = tasks::save_task(store, "task-1", "planning", "Test", "Desc").unwrap();
    task.state = TaskState::agent_working("planning");
    store.save_task(&task).unwrap();
    sessions::save_session(store, "session-1", "task-1", "planning").unwrap();
    if with_iteration {
        iterations::save_iteration(store, "iter-1", "task-1", "planning", 1, "session-1").unwrap();
    }
}

#[test]
fn failed_output_ends_iteration_and_fails_task() {
    let mut store = InMemoryWorkflowStore::new();
    working_task(&mut store, true);
    let end = OutputEnd::Failed { error: "cannot compile".to_string() };
    let task = end_stage_at(&mut store, "task-1", &end, NOW).unwrap();
    assert_eq!(task.state, TaskState::failed_at("planning", "cannot compile"));
    assert_eq!(task.updated_at, NOW);
    assert_eq!(store.get_task("task-1").unwrap().unwrap().state, task.state);
    assert!(store.get_active_iteration("task-1", "planning").unwrap().is_none());
    let it = store.get_latest_iteration("task-1", "planning").unwrap().unwrap();
    assert_eq!(it.outcome, Some(Outcome::AgentError { error: "cannot compile".to_string() }));
    assert_eq!(it.ended_at.as_deref(), Some(NOW));
}

#[test]
fn blocked_output_ends_iteration_and_blocks_task() {
    let mut store = InMemoryWorkflowStore::new();
    working_task(&mut store, true);
    let end = OutputEnd::Blocked { reason: "needs credentials".to_string() };
    let task = end_stage_at(&mut store, "task-1", &end, NOW).unwrap();
    assert_eq!(task.state, TaskState::blocked_at("planning", "needs credentials"));
    let it = store.get_latest_iteration("task-1", "planning").unwrap().unwrap();
    assert_eq!(it.outcome, Some(Outcome::Blocked { reason: "needs credentials".to_string() }));
}

#[test]
fn output_for_idle_task_is_refused() {
    let mut store = InMemoryWorkflowStore::new();
    tasks::save_task(&mut store, "task-1", "planning", "Test", "Desc").unwrap();
    let end = OutputEnd::Failed { error: "x".to_string() };
    let err = end_stage_at(&mut store, "task-1", &end, NOW).unwrap_err();
    assert!(matches!(err, WorkflowError::InvalidTransition(ref m)
        if m.starts_with("Cannot process agent output in state ") && m.ends_with(" (expected AgentWorking)")));
}

#[test]
fn output_without_active_iteration_is_refused() {
    let mut store = InMemoryWorkflowStore::new();
    working_task(&mut store, false);
    let end = OutputEnd::Blocked { reason: "x".to_string() };
    assert_eq!(
        end_stage_at(&mut store, "task-1", &end, NOW).unwrap_err(),
        WorkflowError::InvalidState("no active iteration for task task-1 in stage planning".to_string())
    );
    assert_eq!(store.get_task("task-1").unwrap().unwrap().state, TaskState::agent_working("planning"));
}

#[test]
fn output_for_unknown_task_is_refused() {
    let mut store = InMemoryWorkflowStore::new();
    let end = OutputEnd::Failed { error: "x".to_string() };
    assert_eq!(
        end_stage_at(&mut store, "nope", &end, NOW).unwrap_err(),
        WorkflowError::TaskNotFound("nope".to_string())
    );
}

#[test]
fn artifact_id_joins_iteration_and_name() {
    assert_eq!(workflow_artifact_id("iter-7", "plan"), "iter-7-plan");
}
