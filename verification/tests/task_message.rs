//! Accepting a task-scoped assistant message and choosing where it runs.

use orkestra_core::testutil::fixtures::tasks;
use orkestra_core::workflow::adapters::memory::InMemoryWorkflowStore;
use orkestra_core::workflow::assistant::task_message::{
    accept_task_message, task_working_dir, unavailable_entries, user_message_entry, WorkingDir,
};
use orkestra_core::workflow::domain::log_entry::LogEntry;
use orkestra_core::workflow::ports::WorkflowError;

#[test]
fn blank_message_is_refused_before_the_task_is_looked_up() {
    let store = InMemoryWorkflowStore::new();
    assert_eq!(
        accept_task_message(&store, "missing", "  \n\t ").unwrap_err(),
        WorkflowError::InvalidState("Message cannot be empty".to_string())
    );
}

#[test]
fn message_for_unknown_task_is_refused() {
    let store = InMemoryWorkflowStore::new();
    assert_eq!(
        accept_task_message(&store, "task-9", "hello").unwrap_err(),
        WorkflowError::InvalidState("Task not found: task-9".to_string())
    );
}

#[test]
fn message_for_known_task_returns_it() {
    let mut store = InMemoryWorkflowStore::new();
    tasks::save_task(&mut store, "task-1", "work", "Title", "Desc").unwrap();
    let t = accept_task_message(&store, "task-1", " what changed? ").unwrap();
    assert_eq!(t.id, "task-1");
    assert_eq!(t.title, "Title");
}

#[test]
fn existing_worktree_is_used() {
    assert_eq!(
        task_working_dir(Some("/wt/task-1"), true, false),
        WorkingDir::Worktree("/wt/task-1".to_string())
    );
    assert_eq!(
        task_working_dir(Some("/wt/task-1"), true, true),
        WorkingDir::Worktree("/wt/task-1".to_string())
    );
}

#[test]
fn chat_task_without_worktree_runs_in_project_root() {
    assert_eq!(task_working_dir(None, false, true), WorkingDir::ProjectRoot);
    assert_eq!(task_working_dir(Some("/gone"), false, true), WorkingDir::ProjectRoot);
}

#[test]
fn other_task_without_worktree_cannot_run() {
    assert_eq!(task_working_dir(None, false, false), WorkingDir::Unavailable);
    assert_eq!(task_working_dir(Some("/gone"), false, false), WorkingDir::Unavailable);
}

#[test]
fn unavailable_worktree_logs_message_then_error() {
    let entries = unavailable_entries("fix it");
    assert_eq!(entries.len(), 2);
    assert_eq!(entries[0], user_message_entry("fix it"));
    assert_eq!(
        entries[0],
        LogEntry::UserMessage { resume_type: "message".to_string(), content: "fix it".to_string() }
    );
    assert_eq!(
        entries[1],
        LogEntry::Error {
            message: "Task worktree not available — the task may have been integrated or cleaned up".to_string()
        }
    );
}
