//! Log entries of agent sessions: text, tool uses and results, subagent
//! activity, process exits and errors.

use vstd::prelude::*;

use crate::text::owned;

verus! {

/// One item of a `TodoWrite` list.
#[derive(Debug, Clone, PartialEq, Eq)]
pub struct TodoItem {
    pub content: String,
    /// `pending`, `in_progress` or `completed`.
    pub status: String,
    pub active_form: String,
}

/// An `ork` command the agent ran.
#[derive(Debug, Clone, PartialEq, Eq)]
pub enum OrkAction {
    SetPlan { task_id: String },
    Complete { task_id: String, summary: Option<String> },
    Fail { task_id: String, reason: Option<String> },
    Block { task_id: String, reason: Option<String> },
    Approve { task_id: String },
    ApproveReview { task_id: String },
    RejectReview { task_id: String, feedback: Option<String> },
    CreateSubtask { parent_id: String, title: String },
    SetBreakdown { task_id: String },
    ApproveBreakdown { task_id: String },
    SkipBreakdown { task_id: String },
    CompleteSubtask { subtask_id: String },
    Other { raw: String },
}

/// What a tool was called with.
#[derive(Debug, Clone, PartialEq, Eq)]
pub enum ToolInput {
    Bash { command: String },
    Read { file_path: String },
    Write { file_path: String },
    Edit { file_path: String },
    Glob { pattern: String },
    Grep { pattern: String },
    Task { description: String },
    TodoWrite { todos: Vec<TodoItem> },
    Ork { ork_action: OrkAction },
    Other { summary: String },
}

/// The resume type of a user message that does not name one.
pub fn default_resume_type() -> (r: String)
    ensures
        r@ == "continue"@,
{
    owned("continue")
}

/// One entry of a session log.
#[derive(Debug, Clone, PartialEq, Eq)]
pub enum LogEntry {
    /// Text from the assistant.
    Text { content: String },
    /// A user or system message (`continue`, `feedback` or `integration`).
    UserMessage { resume_type: String, content: String },
    /// A tool use by the main agent.
    ToolUse { tool: String, id: String, input: ToolInput },
    /// A tool result.
    ToolResult { tool: String, tool_use_id: String, content: String },
    /// A tool use within a subagent.
    SubagentToolUse { tool: String, id: String, input: ToolInput, parent_task_id: String },
    /// A subagent's tool result.
    SubagentToolResult { tool: String, tool_use_id: String, content: String, parent_task_id: String },
    /// The agent process exited.
    ProcessExit { code: Option<i32> },
    /// An error.
    Error { message: String },
}

} // verus!
