//! Adapters: the parts of the outside services' protocols that are pure logic.

pub mod diff;
pub mod memory;
pub mod claude_process;
pub mod claude_spawner;
pub mod fs_crash_recovery;
pub mod gh_pr_monitor;
pub mod gh_pr_service;
pub mod opencode_process;
pub mod paths;
pub mod pr_status;
