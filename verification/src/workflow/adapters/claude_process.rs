//! The spawner of agent CLI processes (the spawning itself is done by
//! the application).

use vstd::prelude::*;

verus! {

/// Spawner for the agent CLI's processes.
#[derive(Debug, Clone, Copy, PartialEq, Eq, Structural)]
pub struct ClaudeProcessSpawner;

impl ClaudeProcessSpawner {
    pub fn new() -> (r: ClaudeProcessSpawner)
        ensures
            r == ClaudeProcessSpawner,
    {
        ClaudeProcessSpawner
    }
}

impl Default for ClaudeProcessSpawner {
    fn default() -> (r: ClaudeProcessSpawner)
        ensures
            r == ClaudeProcessSpawner,
    {
        ClaudeProcessSpawner::new()
    }
}

} // verus!
