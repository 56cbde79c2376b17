//! The decisions taken when a message is sent to a task's assistant or
//! interactive session: whether the message is accepted, in which directory
//! the agent runs, and what the session log records when it cannot run.
//! The session bookkeeping and the process itself are the caller's.

use vstd::prelude::*;

use crate::text::{is_blank, owned, push_str, trim};
use crate::workflow::adapters::memory::{first_where, lemma_first_where_props, task_with_id, InMemoryWorkflowStore};
use crate::workflow::domain::log_entry::LogEntry;
use crate::workflow::domain::task::{same_task, Task};
use crate::workflow::ports::WorkflowError;

verus! {

/// The error for a message that is empty after trimming.
pub open spec fn empty_message_text() -> Seq<char> {
    "Message cannot be empty"@
}

/// The error for a task id that no task has.
pub open spec fn task_missing_text(task_id: Seq<char>) -> Seq<char> {
    "Task not found: "@ + task_id
}

/// The error entry logged when the task has no usable worktree.
pub open spec fn worktree_unavailable_text() -> Seq<char> {
    "Task worktree not available — the task may have been integrated or cleaned up"@
}

/// Checks a message for the task `task_id` and loads the task: a blank
/// message is refused first, then an unknown task; otherwise the stored task
/// is returned. The store is not changed.
pub fn accept_task_message(store: &InMemoryWorkflowStore, task_id: &str, message: &str) -> (r: Result<Task, WorkflowError>)
    ensures
        trim(message@).len() == 0 ==> (r matches Err(WorkflowError::InvalidState(m)) && m@ == empty_message_text()),
        trim(message@).len() != 0 ==> match first_where(store.stored_tasks(), task_with_id(task_id@)) {
            None => r matches Err(WorkflowError::InvalidState(m)) && m@ == task_missing_text(task_id@),
            Some(i) => r matches Ok(t) && same_task(t, store.stored_tasks()[i]),
        },
{
    if is_blank(message) {
        return Err(WorkflowError::InvalidState(owned("Message cannot be empty")));
    }
    proof {
        lemma_first_where_props(store.stored_tasks(), task_with_id(task_id@));
    }
    match store.get_task(task_id) {
        Ok(Some(t)) => Ok(t),
        Ok(None) => {
            let mut m = owned("Task not found: ");
            push_str(&mut m, task_id);
            Err(WorkflowError::InvalidState(m))
        },
        Err(e) => Err(e),
    }
}

/// Where the agent for a task-scoped message runs.
#[derive(Debug, PartialEq, Eq)]
pub enum WorkingDir {
    /// The task's worktree, at this path.
    Worktree(String),
    /// The project root: a chat task works there when it has no worktree.
    ProjectRoot,
    /// Nowhere: the message is logged with an error entry and no agent runs.
    Unavailable,
}

/// The directory chosen for a task whose worktree path is `worktree_path`,
/// where `worktree_exists` says whether that path is on disk.
pub open spec fn working_dir_of(worktree_path: Option<Seq<char>>, worktree_exists: bool, is_chat: bool) -> Option<Option<Seq<char>>> {
    match worktree_path {
        Some(p) if worktree_exists => Some(Some(p)),
        _ => if is_chat {
            Some(None)
        } else {
            None
        },
    }
}

/// `Some(Some(path))` for a worktree, `Some(None)` for the project root,
/// `None` when unavailable.
pub open spec fn working_dir_view(d: WorkingDir) -> Option<Option<Seq<char>>> {
    match d {
        WorkingDir::Worktree(p) => Some(Some(p@)),
        WorkingDir::ProjectRoot => Some(None),
        WorkingDir::Unavailable => None,
    }
}

/// Picks the working directory: the worktree when its path is set and
/// exists, else the project root for a chat task, else none.
pub fn task_working_dir(worktree_path: Option<&str>, worktree_exists: bool, is_chat: bool) -> (r: WorkingDir)
    ensures
        working_dir_view(r) == working_dir_of(
            match worktree_path {
                Some(p) => Some(p@),
                None => None,
            },
            worktree_exists,
            is_chat,
        ),
{
    match worktree_path {
        Some(p) if worktree_exists => WorkingDir::Worktree(owned(p)),
        _ => if is_chat {
            WorkingDir::ProjectRoot
        } else {
            WorkingDir::Unavailable
        },
    }
}

/// Whether `e` is the log entry of the user message `message`.
pub open spec fn is_user_message(e: LogEntry, message: Seq<char>) -> bool {
    e matches LogEntry::UserMessage { resume_type, content } && resume_type@ == "message"@ && content@ == message
}

/// The log entry recording the user message `message`.
pub fn user_message_entry(message: &str) -> (r: LogEntry)
    ensures
        is_user_message(r, message@),
{
    LogEntry::UserMessage { resume_type: owned("message"), content: owned(message) }
}

/// What the session log records when the agent cannot run: the user
/// message, then the error that the worktree is unavailable.
pub fn unavailable_entries(message: &str) -> (r: Vec<LogEntry>)
    ensures
        r@.len() == 2,
        is_user_message(r@[0], message@),
        r@[1] matches LogEntry::Error { message: m } && m@ == worktree_unavailable_text(),
{
    let mut entries: Vec<LogEntry> = Vec::new();
    entries.push(user_message_entry(message));
    entries.push(LogEntry::Error {
        message: owned("Task worktree not available — the task may have been integrated or cleaned up"),
    });
    entries
}

} // verus!
