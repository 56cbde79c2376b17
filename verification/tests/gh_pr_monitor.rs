//! Parsing of pull request URLs.

use orkestra_core::workflow::adapters::gh_pr_monitor::GhPrMonitor;

#[test]
fn parse_pr_url_extracts_parts() {
    let (owner, repo, number) =
        GhPrMonitor::parse_pr_url("https://github.com/acme/myrepo/pull/42").unwrap();
    assert_eq!(owner, "acme");
    assert_eq!(repo, "myrepo");
    assert_eq!(number, 42);
}

#[test]
fn parse_pr_url_rejects_invalid() {
    assert!(GhPrMonitor::parse_pr_url("https://github.com/missing-pull").is_err());
    assert!(GhPrMonitor::parse_pr_url("not-a-url").is_err());
}
