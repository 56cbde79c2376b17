//! Parking a task whose agent produced plain text.

use orkestra_core::testutil::fixtures::tasks;
use orkestra_core::workflow::adapters::memory::InMemoryWorkflowStore;
use orkestra_core::workflow::agent::interactions::park_plain_text::execute;
use orkestra_core::workflow::ports::WorkflowError;
use orkestra_core::workflow::runtime::TaskState;

#[test]
fn parks_task_at_awaiting_approval() {
    let mut store = InMemoryWorkflowStore::new();
    let mut task = tasks::save_task(&mut store, "task-1", "work", "Test", "Desc").unwrap();
    task.state = TaskState::agent_working("work");
    store.save_task(&task).unwrap();

    let result = execute(&mut store, "task-1").unwrap();

    assert!(
        matches!(result.state, TaskState::AwaitingApproval { ref stage } if stage == "work"),
        "Expected AwaitingApproval(work), got {:?}",
        result.state
    );
}

#[test]
fn rejects_non_agent_working_state() {
    let mut store = InMemoryWorkflowStore::new();
    let _task = tasks::save_task(&mut store, "task-1", "work", "Test", "Desc").unwrap();
    // task is in Queued state by default

    let err = execute(&mut store, "task-1").unwrap_err();
    assert!(
        matches!(err, WorkflowError::InvalidTransition(_)),
        "Expected InvalidTransition, got {err:?}"
    );
}
