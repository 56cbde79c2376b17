//! Where the agent spawner keeps pending outputs.

use vstd::prelude::*;

use crate::text::owned;
use crate::workflow::adapters::paths::{join_path, path_join, pending_file, pending_file_name};
use crate::workflow::domain::task::Task;

verus! {

/// The agent spawner's pending-output directory.
pub struct ClaudeAgentSpawner {
    pending_outputs_dir: String,
}

impl ClaudeAgentSpawner {
    /// The directory pending outputs are kept in.
    pub closed spec fn directory(&self) -> Seq<char> {
        self.pending_outputs_dir@
    }

    /// A spawner keeping pending outputs in `pending_outputs_dir`.
    pub fn new(pending_outputs_dir: &str) -> (r: ClaudeAgentSpawner)
        ensures
            r.directory() == pending_outputs_dir@,
    {
        ClaudeAgentSpawner { pending_outputs_dir: owned(pending_outputs_dir) }
    }

    /// A spawner using `.orkestra/pending-outputs` under the project root.
    pub fn from_project_root(project_root: &str) -> (r: ClaudeAgentSpawner)
        ensures
            r.directory() == path_join(project_root@, ".orkestra/pending-outputs"@),
    {
        ClaudeAgentSpawner { pending_outputs_dir: join_path(project_root, ".orkestra/pending-outputs") }
    }

    /// The directory, as text.
    pub fn dir(&self) -> (r: &str)
        ensures
            r@ == self.directory(),
    {
        self.pending_outputs_dir.as_str()
    }

    /// The file of a task stage's pending output.
    pub fn pending_output_path(&self, task_id: &str, stage: &str) -> (r: String)
        ensures
            r@ == path_join(self.directory(), pending_file_name(task_id@, stage@)),
    {
        let name = pending_file(task_id, stage);
        join_path(self.pending_outputs_dir.as_str(), name.as_str())
    }
}

/// The directory an agent for `task` runs in: the task's worktree when it
/// has one, else the project root.
pub open spec fn agent_dir_of(worktree_path: Option<Seq<char>>, project_root: Seq<char>) -> Seq<char> {
    match worktree_path {
        Some(p) => p,
        None => project_root,
    }
}

/// Picks the directory an agent for `task` runs in.
pub fn agent_working_dir(task: &Task, project_root: &str) -> (r: String)
    ensures
        r@ == agent_dir_of(
            match task.worktree_path {
                Some(p) => Some(p@),
                None => None,
            },
            project_root@,
        ),
{
    match &task.worktree_path {
        Some(p) => p.clone(),
        None => owned(project_root),
    }
}

} // verus!
