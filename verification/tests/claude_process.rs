//! The agent CLI process spawner.

use orkestra_core::workflow::adapters::claude_process::ClaudeProcessSpawner;

#[test]
fn test_claude_process_spawner_default() {
    let spawner = ClaudeProcessSpawner;
    let _ = spawner;
}
