//! Pull request URL errors, the remembered login, and utility errors.

use orkestra_core::utility::{UtilityError, UtilityRunner};
use orkestra_core::workflow::adapters::gh_pr_monitor::GhPrMonitor;
use orkestra_core::workflow::adapters::gh_pr_service::PrError;

#[test]
fn pr_url_errors_say_why() {
    assert_eq!(
        GhPrMonitor::parse_pr_url("https://github.com/acme/repo/issues/3"),
        Err(PrError::ReadFailed("Invalid PR URL format: https://github.com/acme/repo/issues/3".to_string()))
    );
    assert_eq!(
        GhPrMonitor::parse_pr_url("https://github.com/acme/repo/pull/abc"),
        Err(PrError::ReadFailed("Invalid PR number in URL: https://github.com/acme/repo/pull/abc".to_string()))
    );
    assert_eq!(
        GhPrMonitor::parse_pr_url("pull/7"),
        Err(PrError::ReadFailed("Invalid PR URL format: pull/7".to_string()))
    );
}

#[test]
fn pr_url_trailing_slash_and_last_pull_segment() {
    let (owner, repo, number) = GhPrMonitor::parse_pr_url("https://github.com/o/r/pull/9/").unwrap();
    assert_eq!((owner.as_str(), repo.as_str(), number), ("o", "r", 9));
    let (owner, repo, number) = GhPrMonitor::parse_pr_url("https://x/pull/a/pull/12").unwrap();
    assert_eq!((owner.as_str(), repo.as_str(), number), ("pull", "a", 12));
}

#[test]
fn monitor_remembers_first_login() {
    let mut monitor = GhPrMonitor::new();
    assert_eq!(monitor.cached_user(), None);
    monitor.remember_user("alice");
    monitor.remember_user("bob");
    assert_eq!(monitor.cached_user(), Some("alice".to_string()));
}

#[test]
fn utility_error_texts() {
    assert_eq!(UtilityError::Timeout.to_string(), "Task timed out");
    assert_eq!(UtilityError::TaskNotFound("title".to_string()).to_string(), "Task not found: title");
    assert_eq!(UtilityError::SpawnFailed("no cli".to_string()).to_string(), "Failed to spawn process: no cli");
    assert_eq!(UtilityError::ValidationFailed("x".to_string()).to_string(), "Validation failed: x");
}

#[test]
fn utility_runner_builders() {
    let runner = UtilityRunner::new().with_timeout(5).with_model("haiku");
    assert_eq!(runner.timeout_secs(), 5);
    assert_eq!(runner.model(), "haiku");
}

#[test]
fn utility_process_args_carry_model_and_schema() {
    let runner = UtilityRunner::new();
    assert_eq!(
        runner.process_args("{\"type\":\"object\"}"),
        vec!["--model", "haiku", "--print", "--output-format", "json", "--json-schema", "{\"type\":\"object\"}"]
    );
}
