//! Deciding what a pull request poll leads to.

use orkestra_core::workflow::auto_resolve::interactions::trigger_feedback::{
    compute_new_feedback, decide, AutoResolveCheckRun, AutoResolveComment, AutoResolveProgress,
    AutoResolveReview, AutoResolveStatus, PrState, ResolvedFeedbackIds, ReviewState,
    TriggerResult, AUTO_RESOLVE_LIMIT,
};

fn check(id: i64, name: &str) -> AutoResolveCheckRun {
    AutoResolveCheckRun { id, name: name.to_string(), log_excerpt: None }
}

fn comment(id: i64, author: &str, body: &str) -> AutoResolveComment {
    AutoResolveComment {
        id,
        author: author.to_string(),
        body: body.to_string(),
        path: Some("src/lib.rs".to_string()),
        line: Some(3),
    }
}

fn review(id: i64, state: ReviewState) -> AutoResolveReview {
    AutoResolveReview { id, author: "octocat".to_string(), state }
}

fn status(
    pr_state: PrState,
    failed_checks: Vec<AutoResolveCheckRun>,
    comments: Vec<AutoResolveComment>,
    reviews: Vec<AutoResolveReview>,
    all_checks_concluded: bool,
) -> AutoResolveStatus {
    AutoResolveStatus { pr_state, failed_checks, comments, reviews, all_checks_concluded }
}

fn progress(count: i32, checks: Vec<i64>, comments: Vec<i64>, reviews: Vec<i64>) -> AutoResolveProgress {
    AutoResolveProgress {
        auto_resolve: true,
        auto_resolve_count: count,
        resolved_feedback_ids: ResolvedFeedbackIds {
            check_run_ids: checks,
            comment_ids: comments,
            review_ids: reviews,
        },
    }
}

#[test]
fn closed_pr_changes_nothing() {
    let st = status(PrState::Merged, vec![check(1, "ci")], vec![comment(5, "alice", "fix")], vec![], true);
    let mut p = progress(0, vec![], vec![], vec![]);
    let d = decide(&mut p, &st, "me");
    assert_eq!(d.result, TriggerResult::PrClosed);
    assert!(d.comments.is_empty() && d.checks.is_empty());
    assert!(p.auto_resolve);
    assert_eq!(p.auto_resolve_count, 0);
    assert!(p.resolved_feedback_ids.check_run_ids.is_empty());
}

#[test]
fn own_comments_are_not_feedback() {
    let st = status(PrState::Open, vec![], vec![comment(5, "me", "note to self")], vec![], true);
    let mut p = progress(0, vec![], vec![], vec![]);
    let d = decide(&mut p, &st, "me");
    assert_eq!(d.result, TriggerResult::NoNewFeedback);
    assert_eq!(p.auto_resolve_count, 0);
}

#[test]
fn new_comment_triggers_and_is_recorded() {
    let st = status(
        PrState::Open,
        vec![],
        vec![comment(5, "alice", "rename this"), comment(6, "me", "ok"), comment(7, "bob", "typo")],
        vec![review(40, ReviewState::ChangesRequested), review(41, ReviewState::Approved)],
        true,
    );
    let mut p = progress(2, vec![], vec![7], vec![]);
    let d = decide(&mut p, &st, "me");
    assert_eq!(d.result, TriggerResult::Triggered);
    let ids: Vec<i64> = d.comments.iter().map(|c| c.id).collect();
    assert_eq!(ids, vec![5]);
    assert!(d.checks.is_empty());
    assert_eq!(p.auto_resolve_count, 3);
    assert!(p.auto_resolve);
    assert_eq!(p.resolved_feedback_ids.comment_ids, vec![7, 5]);
    assert_eq!(p.resolved_feedback_ids.review_ids, vec![40]);
    assert!(p.resolved_feedback_ids.check_run_ids.is_empty());
}

#[test]
fn failed_checks_wait_for_ci_to_conclude() {
    let st = status(PrState::Open, vec![check(1, "test")], vec![], vec![], false);
    let mut p = progress(0, vec![], vec![], vec![]);
    let d = decide(&mut p, &st, "me");
    assert_eq!(d.result, TriggerResult::WaitingForCi);
    assert!(p.resolved_feedback_ids.check_run_ids.is_empty());
}

#[test]
fn concluded_failed_checks_trigger() {
    let st = status(PrState::Open, vec![check(1, "test"), check(2, "lint")], vec![], vec![], true);
    let mut p = progress(0, vec![2], vec![], vec![]);
    let d = decide(&mut p, &st, "me");
    assert_eq!(d.result, TriggerResult::Triggered);
    let names: Vec<&str> = d.checks.iter().map(|c| c.name.as_str()).collect();
    assert_eq!(names, vec!["test"]);
    assert_eq!(p.resolved_feedback_ids.check_run_ids, vec![2, 1]);
}

#[test]
fn limit_switches_auto_resolve_off() {
    let st = status(PrState::Open, vec![], vec![comment(5, "alice", "again")], vec![], true);
    let mut p = progress(AUTO_RESOLVE_LIMIT, vec![], vec![], vec![]);
    let d = decide(&mut p, &st, "me");
    assert_eq!(d.result, TriggerResult::LimitReached);
    assert!(!p.auto_resolve);
    assert_eq!(p.auto_resolve_count, AUTO_RESOLVE_LIMIT);
    assert!(p.resolved_feedback_ids.comment_ids.is_empty());
}

#[test]
fn standing_addressed_change_request_escalates() {
    let st = status(
        PrState::Open,
        vec![],
        vec![comment(5, "alice", "new")],
        vec![review(40, ReviewState::ChangesRequested)],
        true,
    );
    let mut p = progress(1, vec![], vec![], vec![40]);
    let d = decide(&mut p, &st, "me");
    assert_eq!(d.result, TriggerResult::Escalated);
    assert!(!p.auto_resolve);
    assert_eq!(p.auto_resolve_count, 1);
}

#[test]
fn second_poll_of_same_status_does_not_trigger_again() {
    let st = status(
        PrState::Open,
        vec![check(1, "test")],
        vec![comment(5, "alice", "fix")],
        vec![],
        true,
    );
    let mut p = progress(0, vec![], vec![], vec![]);
    assert_eq!(decide(&mut p, &st, "me").result, TriggerResult::Triggered);
    assert_eq!(decide(&mut p, &st, "me").result, TriggerResult::NoNewFeedback);
    assert_eq!(p.auto_resolve_count, 1);
}

#[test]
fn new_feedback_filters_seen_ids() {
    let st = status(
        PrState::Open,
        vec![check(1, "a"), check(2, "b")],
        vec![comment(5, "alice", "x"), comment(6, "bob", "y")],
        vec![review(9, ReviewState::ChangesRequested), review(10, ReviewState::Commented)],
        true,
    );
    let external: Vec<&AutoResolveComment> = st.comments.iter().collect();
    let resolved = ResolvedFeedbackIds { check_run_ids: vec![1], comment_ids: vec![6], review_ids: vec![10] };
    let fb = compute_new_feedback(&st, &external, &resolved);
    assert_eq!(fb.checks.iter().map(|c| c.id).collect::<Vec<_>>(), vec![2]);
    assert_eq!(fb.comments.iter().map(|c| c.id).collect::<Vec<_>>(), vec![5]);
    assert!(!fb.stale_changes_requested);
    let resolved = ResolvedFeedbackIds { check_run_ids: vec![], comment_ids: vec![], review_ids: vec![9] };
    assert!(compute_new_feedback(&st, &external, &resolved).stale_changes_requested);
}
