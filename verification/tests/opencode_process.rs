//! The OpenCode process spawner.

use orkestra_core::workflow::adapters::opencode_process::OpenCodeProcessSpawner;

#[test]
fn test_opencode_process_spawner_default() {
    let spawner = OpenCodeProcessSpawner;
    let _ = spawner;
}

#[test]
fn test_opencode_process_spawner_new() {
    let spawner = OpenCodeProcessSpawner::new();
    let _ = spawner;
}

#[test]
fn run_args_name_session_and_model() {
    let spawner = OpenCodeProcessSpawner::new();
    assert_eq!(
        spawner.run_args(Some("ses_1"), false, Some("kimi-k2")),
        vec!["run", "--session", "ses_1", "--model", "kimi-k2", "--format", "json"]
    );
    assert_eq!(spawner.run_args(Some("ses_1"), true, None), vec!["run", "--continue", "ses_1", "--format", "json"]);
    assert_eq!(spawner.run_args(None, false, None), vec!["run", "--format", "json"]);
}
