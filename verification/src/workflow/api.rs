//! Hooks that the workflow API calls out to.

use vstd::prelude::*;

verus! {

/// Kills the processes working on a task.
///
/// An interruption kills the task's agent before its state changes; an
/// implementation handles its own failures, since the state change goes on
/// either way.
pub trait AgentKiller: Send + Sync {
    /// Kills the task's active agent and stops tracking it: the process id
    /// that was killed, or `None` when the task had no active agent.
    fn kill_agent(&self, task_id: &str) -> Option<u32>;

    /// Kills the task's active gate script and stops tracking it: the process
    /// id that was killed, or `None` when the task had none running.
    fn kill_gate(&self, task_id: &str) -> Option<u32>;
}

} // verus!
