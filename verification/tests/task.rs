//! Tasks: construction, builders, terminal states and artifacts.

use orkestra_core::workflow::domain::task::{extract_short_id, Task};
use orkestra_core::workflow::runtime::{Artifact, TaskState};

#[test]
fn test_task_new() {
    let task = Task::new(
        "task-1",
        "Implement login",
        "Add login functionality",
        "planning",
        "2025-01-24T10:00:00Z",
    );

    assert_eq!(task.id, "task-1");
    assert_eq!(task.title, "Implement login");
    assert_eq!(task.current_stage(), Some("planning"));
    assert_eq!(task.state, TaskState::queued("planning"));
    assert!(!task.is_terminal());
    assert!(!task.is_subtask());
}

#[test]
fn test_task_with_parent() {
    let task = Task::new("sub-1", "Subtask", "desc", "work", "now").with_parent("parent-1");

    assert!(task.is_subtask());
    assert_eq!(task.parent_id, Some("parent-1".into()));
}

#[test]
fn test_task_with_dependencies() {
    let task = Task::new("task-1", "Task", "desc", "work", "now")
        .with_dependencies(vec!["dep-1".into(), "dep-2".into()]);

    assert_eq!(task.depends_on.len(), 2);
}

#[test]
fn test_task_with_branch() {
    let task = Task::new("task-1", "Task", "desc", "work", "now").with_branch("feature/login");

    assert_eq!(task.branch_name, Some("feature/login".into()));
}

#[test]
fn test_task_terminal_states() {
    let mut task = Task::new("task-1", "Task", "desc", "planning", "now");
    assert!(!task.is_terminal());
    assert!(!task.is_done());

    task.state = TaskState::Done;
    assert!(task.is_terminal());
    assert!(task.is_done());

    task.state = TaskState::Archived;
    assert!(task.is_terminal());
    assert!(task.is_archived());

    task.state = TaskState::failed("error");
    assert!(task.is_terminal());
    assert!(task.is_failed());

    task.state = TaskState::blocked("waiting");
    assert!(task.is_terminal());
    assert!(task.is_blocked());
}

#[test]
fn test_task_artifacts() {
    let mut task = Task::new("task-1", "Task", "desc", "work", "now");
    assert!(task.artifact("plan").is_none());

    task.artifacts
        .set(Artifact::new("plan", "The plan content", "planning", "now"));
    assert_eq!(task.artifact("plan"), Some("The plan content"));
}

#[test]
fn test_task_awaiting_review() {
    let mut task = Task::new("task-1", "Task", "desc", "planning", "now");
    assert!(!task.is_awaiting_review());

    task.state = TaskState::awaiting_approval("planning");
    assert!(task.is_awaiting_review());
}

#[test]
fn test_extract_short_id() {
    assert_eq!(extract_short_id("tunefully-cogent-bird"), "bird");
    assert_eq!(extract_short_id("happily-lusty-fulmar"), "fulmar");
    assert_eq!(extract_short_id("adverb-adjective-noun001"), "noun001");
    assert_eq!(extract_short_id("single"), "single");
}
