//! Marking an agent as started.

use orkestra_core::testutil::fixtures::tasks;
use orkestra_core::workflow::adapters::memory::InMemoryWorkflowStore;
use orkestra_core::workflow::agent::interactions::agent_started::{execute, start_at};
use orkestra_core::workflow::ports::WorkflowError;
use orkestra_core::workflow::runtime::TaskState;

#[test]
fn queued_task_starts_working() {
    let mut store = InMemoryWorkflowStore::new();
    let mut task = tasks::save_task(&mut store, "task-1", "work", "Test", "Desc").unwrap();
    task.state = TaskState::queued("work");
    store.save_task(&task).unwrap();
    let t = start_at(&mut store, "task-1", "2025-02-01T00:00:00Z").unwrap();
    assert_eq!(t.state, TaskState::agent_working("work"));
    assert_eq!(t.updated_at, "2025-02-01T00:00:00Z");
    assert_eq!(store.get_task("task-1").unwrap().unwrap().state, TaskState::agent_working("work"));
}

#[test]
fn only_queued_tasks_start() {
    let mut store = InMemoryWorkflowStore::new();
    let mut task = tasks::save_task(&mut store, "task-1", "work", "Test", "Desc").unwrap();
    task.state = TaskState::agent_working("work");
    store.save_task(&task).unwrap();
    assert_eq!(
        execute(&mut store, "task-1").unwrap_err(),
        (WorkflowError::InvalidTransition("Agent cannot start in state AgentWorking (expected Queued)".to_string()))
    );
    assert_eq!(execute(&mut store, "nope").unwrap_err(), WorkflowError::TaskNotFound("nope".to_string()));
}
