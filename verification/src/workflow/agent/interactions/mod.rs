//! Agent interactions: one operation per module.

pub mod handle_subtasks;
pub mod park_plain_text;
pub mod process_script_success;
pub mod agent_started;
pub mod dispatch_completion;
pub mod fail_execution;
pub mod process_output;
