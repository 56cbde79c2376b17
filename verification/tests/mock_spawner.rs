//! The mock process spawner.

use orkestra_core::testutil::mock_spawner::{MockProcessSpawner, SpawnConfig};

#[test]
fn test_spawn_records_call() {
    let mut spawner = MockProcessSpawner::new();

    let config = SpawnConfig {
        args: &["--print"],
        cwd: "/test",
        stdin_content: "Test prompt",
    };

    let result = spawner.spawn(config).unwrap();

    assert!(result.pid >= 1000);
    assert!(result.session_id.is_some());
    assert_eq!(spawner.call_count(), 1);

    let call = spawner.last_call().unwrap();
    assert_eq!(call.prompt, "Test prompt");
    assert!(!call.is_resume);
}

#[test]
fn test_process_lifecycle() {
    let mut spawner = MockProcessSpawner::new();

    let config = SpawnConfig {
        args: &[],
        cwd: "/",
        stdin_content: "",
    };

    let result = spawner.spawn(config).unwrap();

    assert!(spawner.is_running(result.pid));
    spawner.finish_process(result.pid);
    assert!(!spawner.is_running(result.pid));
}

#[test]
fn test_resume_marks_as_resume() {
    let mut spawner = MockProcessSpawner::new();

    let config = SpawnConfig {
        args: &[],
        cwd: "/",
        stdin_content: "Continue",
    };

    spawner.resume("session-123", config).unwrap();

    let call = spawner.last_call().unwrap();
    assert!(call.is_resume);
    assert_eq!(call.resume_session_id, Some("session-123".to_string()));
}

#[test]
fn finishing_one_process_leaves_others_running() {
    let mut spawner = MockProcessSpawner::new();
    let config = SpawnConfig { args: &[], cwd: "/", stdin_content: "" };
    let first = spawner.spawn(config).unwrap();
    let config = SpawnConfig { args: &[], cwd: "/", stdin_content: "" };
    let second = spawner.spawn(config).unwrap();
    assert_eq!(first.pid, 1000);
    assert_eq!(second.pid, 1001);

    spawner.finish_process(first.pid);
    assert!(!spawner.is_running(first.pid));
    assert!(spawner.is_running(second.pid));
    assert_eq!(spawner.call_count(), 2);
}

#[test]
fn finish_all_stops_every_process() {
    let mut spawner = MockProcessSpawner::new();
    let mut pids = Vec::new();
    for _ in 0..3 {
        let config = SpawnConfig { args: &[], cwd: "/", stdin_content: "" };
        pids.push(spawner.spawn(config).unwrap().pid);
    }
    spawner.finish_all();
    for pid in pids {
        assert!(!spawner.is_running(pid));
    }
    assert!(!spawner.is_running(4242));
    assert_eq!(spawner.call_count(), 3);
}
