//! Pending-output file names and the directories they live in.

use orkestra_core::workflow::adapters::claude_spawner::ClaudeAgentSpawner;
use orkestra_core::workflow::adapters::fs_crash_recovery::FsCrashRecoveryStore;
use orkestra_core::workflow::adapters::paths::{join_path, parse_pending_file_name, pending_file};
use tempfile::TempDir;

#[test]
fn pending_file_name_round_trips() {
    let name = pending_file("task_with_underscores", "review");
    assert_eq!(name, "task_with_underscores_review.json");
    assert_eq!(
        parse_pending_file_name(&name),
        Some(("task_with_underscores".to_string(), "review".to_string()))
    );
}

#[test]
fn pending_file_name_rejects_other_files() {
    assert_eq!(parse_pending_file_name("notes.txt"), None);
    assert_eq!(parse_pending_file_name("nounderscore.json"), None);
    assert_eq!(parse_pending_file_name(".json"), None);
    assert_eq!(parse_pending_file_name(".."), None);
    assert_eq!(parse_pending_file_name("a_b.json.bak"), None);
    assert_eq!(
        parse_pending_file_name("a.b_c.json"),
        Some(("a.b".to_string(), "c".to_string()))
    );
}

#[test]
fn join_path_like_path_join() {
    assert_eq!(join_path("/root", "x"), "/root/x");
    assert_eq!(join_path("/root/", "x"), "/root/x");
    assert_eq!(join_path("", "x"), "x");
    assert_eq!(join_path("/root", "/abs"), "/abs");
}

#[test]
fn recovery_paths_under_project_root() {
    let store = FsCrashRecoveryStore::from_project_root("/proj");
    assert_eq!(store.dir(), "/proj/.orkestra/pending-outputs");
    assert_eq!(store.output_path("t1", "work"), "/proj/.orkestra/pending-outputs/t1_work.json");
    let spawner = ClaudeAgentSpawner::from_project_root("/proj/");
    assert_eq!(spawner.dir(), "/proj/.orkestra/pending-outputs");
    assert_eq!(spawner.pending_output_path("t2", "plan"), "/proj/.orkestra/pending-outputs/t2_plan.json");
    let custom = ClaudeAgentSpawner::new("/tmp/p");
    assert_eq!(custom.pending_output_path("a", "b"), "/tmp/p/a_b.json");
}

fn create_test_store() -> (FsCrashRecoveryStore, TempDir) {
    let temp_dir = TempDir::new().unwrap();
    let dir = temp_dir.path().join("pending-outputs");
    let store = FsCrashRecoveryStore::new(dir.to_str().unwrap());
    (store, temp_dir)
}

fn create_test_spawner() -> (ClaudeAgentSpawner, TempDir) {
    let temp_dir = TempDir::new().unwrap();
    let dir = temp_dir.path().join("pending-outputs");
    let spawner = ClaudeAgentSpawner::new(dir.to_str().unwrap());
    (spawner, temp_dir)
}

#[test]
fn test_output_path() {
    let (store, _temp) = create_test_store();
    let path = store.output_path("task-1", "planning");
    assert!(path.contains("task-1_planning.json"));
}

#[test]
fn test_from_project_root() {
    let temp_dir = TempDir::new().unwrap();
    let store = FsCrashRecoveryStore::from_project_root(temp_dir.path().to_str().unwrap());

    // Should use .orkestra/pending-outputs/ path
    let path = store.output_path("task-1", "planning");
    assert!(path.contains(".orkestra/pending-outputs/"));
}

#[test]
fn test_pending_output_path() {
    let (spawner, _temp) = create_test_spawner();
    let path = spawner.pending_output_path("task-1", "planning");
    assert!(path.contains("task-1_planning.json"));
}

#[test]
fn agent_runs_in_worktree_else_project_root() {
    let mut store = orkestra_core::workflow::adapters::memory::InMemoryWorkflowStore::new();
    let mut task =
        orkestra_core::testutil::fixtures::tasks::save_task(&mut store, "task-1", "work", "T", "D").unwrap();
    assert_eq!(
        orkestra_core::workflow::adapters::claude_spawner::agent_working_dir(&task, "/project"),
        "/project"
    );
    task.worktree_path = Some("/project/.orkestra/worktrees/task-1".to_string());
    assert_eq!(
        orkestra_core::workflow::adapters::claude_spawner::agent_working_dir(&task, "/project"),
        "/project/.orkestra/worktrees/task-1"
    );
}
