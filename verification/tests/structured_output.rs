//! Finding an agent's structured output, and reading pull request status JSON.

use orkestra_core::utility::json::{extract_from_value, find_structured_output, JsonValue};
use orkestra_core::workflow::adapters::pr_status::{classify_check, parse_auto_resolve_status, parse_pr_document, CheckStatus, PrDocument};
use orkestra_core::workflow::auto_resolve::interactions::trigger_feedback::{PrState, ReviewState};
use orkestra_core::workflow::adapters::gh_pr_service::PrError;
use serde_json::Value;

#[test]
fn test_find_structured_output_direct() {
    let output = r#"{"structured_output": {"title": "Fix bug"}}"#;
    let result = find_structured_output(output);
    assert!(result.is_some());
    let parsed: Value = serde_json::from_str(&result.unwrap()).unwrap();
    assert_eq!(parsed["title"], "Fix bug");
}

#[test]
fn test_find_structured_output_array() {
    let output = r#"[{"type":"system"},{"structured_output":{"title":"Fix bug"}}]"#;
    let result = find_structured_output(output);
    assert!(result.is_some());
    let parsed: Value = serde_json::from_str(&result.unwrap()).unwrap();
    assert_eq!(parsed["title"], "Fix bug");
}

#[test]
fn test_find_structured_output_newline() {
    let output = "{\"type\":\"system\"}\n{\"structured_output\":{\"title\":\"Fix bug\"}}";
    let result = find_structured_output(output);
    assert!(result.is_some());
}

#[test]
fn structured_output_rules() {
    assert_eq!(find_structured_output("not json at all"), None);
    assert_eq!(find_structured_output(r#"{"title":"T","body":"b"}"#), Some(r#"{"body":"b","title":"T"}"#.to_string()));
    assert_eq!(find_structured_output(r#"{"type":"x","title":"T"}"#), None);
    assert_eq!(
        find_structured_output("{\"structured_output\":{\"title\":\"A\"}}\n{\"structured_output\":{\"title\":\"B\"}}"),
        Some(r#"{"title":"B"}"#.to_string())
    );
    let v = JsonValue::Array(vec![
        JsonValue::Object(vec![("structured_output".to_string(), JsonValue::Number("1".to_string()))]),
        JsonValue::Object(vec![("structured_output".to_string(), JsonValue::Null)]),
    ]);
    assert_eq!(extract_from_value(&v), Some("1".to_string()));
}

#[test]
fn check_classification() {
    assert_eq!(classify_check(Some("COMPLETED"), Some("FAILURE")), CheckStatus::Failing);
    assert_eq!(classify_check(Some("COMPLETED"), Some("SUCCESS")), CheckStatus::Passing);
    assert_eq!(classify_check(Some("IN_PROGRESS"), None), CheckStatus::Pending);
    assert_eq!(classify_check(Some("COMPLETED"), Some("TIMED_OUT")), CheckStatus::Failing);
}

#[test]
fn status_from_gh_output() {
    let pr = r#"{"state":"OPEN","statusCheckRollup":[
        {"status":"COMPLETED","conclusion":"FAILURE","databaseId":17,"name":"test"},
        {"status":"COMPLETED","conclusion":"SUCCESS","databaseId":18,"name":"lint"},
        {"status":"IN_PROGRESS","conclusion":null,"databaseId":19,"name":"build"}]}"#;
    let comments = r#"[{"id":5,"user":{"login":"alice"},"body":"rename","path":"src/a.rs","line":null,"original_line":12}]"#;
    let reviews = r#"[{"id":40,"user":{"login":"bob"},"state":"CHANGES_REQUESTED"},{"id":41}]"#;
    let st = parse_auto_resolve_status(pr, comments, reviews).unwrap();
    assert_eq!(st.pr_state, PrState::Open);
    assert_eq!(st.failed_checks.len(), 1);
    assert_eq!((st.failed_checks[0].id, st.failed_checks[0].name.as_str()), (17, "test"));
    assert!(!st.all_checks_concluded);
    assert_eq!(st.comments[0].author, "alice");
    assert_eq!(st.comments[0].line, Some(12));
    assert_eq!(st.comments[0].path.as_deref(), Some("src/a.rs"));
    assert_eq!(st.reviews[0].state, ReviewState::ChangesRequested);
    assert_eq!(st.reviews[1].state, ReviewState::Commented);
    assert_eq!(st.reviews[1].author, "");
}

#[test]
fn status_parse_errors_name_the_document() {
    match parse_auto_resolve_status("{}", "[", "[]") {
        Err(PrError::ReadFailed(m)) => assert!(m.starts_with("Failed to parse comments: ")),
        _ => panic!("expected a parse error"),
    }
}

#[test]
fn pr_documents_are_read_one_by_one() {
    assert_eq!(
        parse_pr_document(PrDocument::Comments, "[]").unwrap(),
        JsonValue::Array(Vec::new())
    );
    match parse_pr_document(PrDocument::Reviews, "{oops").unwrap_err() {
        PrError::ReadFailed(m) => assert!(m.starts_with("Failed to parse reviews: ")),
        other => panic!("unexpected error {other:?}"),
    }
    match parse_pr_document(PrDocument::PrView, "").unwrap_err() {
        PrError::ReadFailed(m) => assert!(m.starts_with("Failed to parse pr view output: ")),
        other => panic!("unexpected error {other:?}"),
    }
}
