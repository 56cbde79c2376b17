//! The pull request service.

use orkestra_core::workflow::adapters::gh_pr_service::GhPrService;

#[test]
fn test_find_existing_pr_parses_empty_array() {
    // This is a unit test that would require mocking Command, which isn't
    // practical here. The real test would be an integration test with a
    // test repo. For now, we just ensure the struct is constructible.
    let service = GhPrService::new();
    let _ = service;
}
