//! The in-memory workflow store.

use orkestra_core::workflow::adapters::memory::InMemoryWorkflowStore;
use orkestra_core::workflow::domain::iteration::Iteration;
use orkestra_core::workflow::domain::task::Task;
use orkestra_core::workflow::runtime::{Outcome, TaskState};

#[test]
fn memory_test_task_crud() {
    let mut store = InMemoryWorkflowStore::new();

    let task = Task::new("task-1", "Test", "Description", "planning", "now");
    store.save_task(&task).unwrap();

    let loaded = store.get_task("task-1").unwrap().unwrap();
    assert_eq!(loaded.title, "Test");

    let mut updated = loaded;
    updated.state = TaskState::agent_working("planning");
    store.save_task(&updated).unwrap();

    let loaded = store.get_task("task-1").unwrap().unwrap();
    assert_eq!(loaded.state, TaskState::agent_working("planning"));

    store.delete_task("task-1").unwrap();
    assert!(store.get_task("task-1").unwrap().is_none());
}

#[test]
fn test_iteration_lifecycle() {
    let mut store = InMemoryWorkflowStore::new();

    let task = Task::new("task-1", "Test", "Desc", "planning", "now");
    store.save_task(&task).unwrap();

    let iter = Iteration::new("iter-1", "task-1", "planning", 1, "now");
    store.save_iteration(&iter).unwrap();

    let active = store.get_active_iteration("task-1", "planning").unwrap();
    assert!(active.is_some());

    let mut iter = active.unwrap();
    iter.end("later", Outcome::Approved);
    store.save_iteration(&iter).unwrap();

    let active = store.get_active_iteration("task-1", "planning").unwrap();
    assert!(active.is_none());

    let latest = store.get_latest_iteration("task-1", "planning").unwrap();
    assert!(latest.is_some());
}

#[test]
fn test_unique_task_ids() {
    let mut store = InMemoryWorkflowStore::new();

    let id1 = store.next_task_id().unwrap();
    let id2 = store.next_task_id().unwrap();
    let id3 = store.next_task_id().unwrap();

    assert_eq!(id1, "task-001");
    assert_eq!(id2, "task-002");
    assert_eq!(id3, "task-003");
}
