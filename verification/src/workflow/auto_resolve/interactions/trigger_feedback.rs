//! Decides, for one polled pull request, whether its new feedback starts a
//! feedback iteration, and which feedback that iteration addresses.

use vstd::prelude::*;

use crate::text::str_eq;
use crate::workflow::domain::sorting::keep;

verus! {

/// Number of automatically started iterations after which a task waits for a
/// human again.
pub const AUTO_RESOLVE_LIMIT: i32 = 10;

/// Outcome of an auto-resolve poll for a single task.
#[derive(Debug, Clone, Copy, PartialEq, Eq, Structural)]
pub enum TriggerResult {
    /// No new feedback found: the task stays done.
    NoNewFeedback,
    /// Failed checks exist but CI has not yet fully concluded.
    WaitingForCi,
    /// A feedback iteration is due and the task goes back to the queue.
    Triggered,
    /// The pull request is no longer open.
    PrClosed,
    /// The iteration limit is reached: auto-resolve is switched off.
    LimitReached,
    /// A change request that was already addressed is still standing:
    /// auto-resolve is switched off.
    Escalated,
}

/// State of a pull request.
#[derive(Debug, Clone, Copy, PartialEq, Eq, Structural)]
pub enum PrState {
    Open,
    Closed,
    Merged,
}

/// State of a pull request review.
#[derive(Debug, Clone, Copy, PartialEq, Eq, Structural)]
pub enum ReviewState {
    Approved,
    ChangesRequested,
    Commented,
    Dismissed,
    Pending,
}

/// A failed CI check run.
#[derive(Debug)]
pub struct AutoResolveCheckRun {
    pub id: i64,
    pub name: String,
    pub log_excerpt: Option<String>,
}

/// A review comment on the pull request.
#[derive(Debug)]
pub struct AutoResolveComment {
    pub id: i64,
    pub author: String,
    pub body: String,
    pub path: Option<String>,
    pub line: Option<u32>,
}

/// A review of the pull request.
#[derive(Debug)]
pub struct AutoResolveReview {
    pub id: i64,
    pub author: String,
    pub state: ReviewState,
}

/// Everything a poll learned about a pull request.
#[derive(Debug)]
pub struct AutoResolveStatus {
    pub pr_state: PrState,
    pub failed_checks: Vec<AutoResolveCheckRun>,
    pub comments: Vec<AutoResolveComment>,
    pub reviews: Vec<AutoResolveReview>,
    /// No check is still pending.
    pub all_checks_concluded: bool,
}

/// Feedback identifiers that earlier iterations already addressed.
#[derive(Debug)]
pub struct ResolvedFeedbackIds {
    pub check_run_ids: Vec<i64>,
    pub comment_ids: Vec<i64>,
    pub review_ids: Vec<i64>,
}

/// The auto-resolve fields of a task.
#[derive(Debug)]
pub struct AutoResolveProgress {
    pub auto_resolve: bool,
    pub auto_resolve_count: i32,
    pub resolved_feedback_ids: ResolvedFeedbackIds,
}

/// Checks, comments and the standing-change-request flag that are new
/// relative to the addressed identifiers.
pub struct NewFeedback<'a> {
    pub checks: Vec<&'a AutoResolveCheckRun>,
    pub comments: Vec<&'a AutoResolveComment>,
    pub stale_changes_requested: bool,
}

/// What a poll decided, with the feedback a triggered iteration addresses.
pub struct TriggerDecision<'a> {
    pub result: TriggerResult,
    pub comments: Vec<&'a AutoResolveComment>,
    pub checks: Vec<&'a AutoResolveCheckRun>,
}

// ---------------------------------------------------------------------------
// Model
// ---------------------------------------------------------------------------

pub open spec fn check_values(v: Seq<&AutoResolveCheckRun>) -> Seq<AutoResolveCheckRun> {
    Seq::new(v.len(), |i: int| *v[i])
}

pub open spec fn comment_values(v: Seq<&AutoResolveComment>) -> Seq<AutoResolveComment> {
    Seq::new(v.len(), |i: int| *v[i])
}

pub open spec fn check_ids(s: Seq<AutoResolveCheckRun>) -> Seq<i64> {
    s.map_values(|c: AutoResolveCheckRun| c.id)
}

pub open spec fn comment_ids(s: Seq<AutoResolveComment>) -> Seq<i64> {
    s.map_values(|c: AutoResolveComment| c.id)
}

pub open spec fn review_ids(s: Seq<AutoResolveReview>) -> Seq<i64> {
    s.map_values(|r: AutoResolveReview| r.id)
}

/// A comment written by someone other than `user`.
pub open spec fn is_external(user: Seq<char>) -> spec_fn(AutoResolveComment) -> bool {
    |c: AutoResolveComment| c.author@ != user
}

pub open spec fn check_unseen(seen: Seq<i64>) -> spec_fn(AutoResolveCheckRun) -> bool {
    |c: AutoResolveCheckRun| !seen.contains(c.id)
}

pub open spec fn comment_unseen(seen: Seq<i64>) -> spec_fn(AutoResolveComment) -> bool {
    |c: AutoResolveComment| !seen.contains(c.id)
}

/// A change request that no earlier iteration addressed.
pub open spec fn open_change_request(seen: Seq<i64>) -> spec_fn(AutoResolveReview) -> bool {
    |r: AutoResolveReview| r.state == ReviewState::ChangesRequested && !seen.contains(r.id)
}

/// Failed checks not addressed yet.
pub open spec fn new_checks(status: AutoResolveStatus, seen: Seq<i64>) -> Seq<AutoResolveCheckRun> {
    keep(status.failed_checks@, check_unseen(seen))
}

/// Comments of others not addressed yet.
pub open spec fn new_comments(status: AutoResolveStatus, seen: Seq<i64>, user: Seq<char>) -> Seq<
    AutoResolveComment,
> {
    keep(keep(status.comments@, is_external(user)), comment_unseen(seen))
}

/// A change request that an earlier iteration addressed is still standing.
pub open spec fn has_stale_review(reviews: Seq<AutoResolveReview>, seen: Seq<i64>) -> bool {
    exists|i: int|
        0 <= i < reviews.len() && reviews[i].state == ReviewState::ChangesRequested && seen.contains(
            #[trigger] reviews[i].id,
        )
}

/// The failed checks an iteration would address: none while CI still runs.
pub open spec fn effective_checks(status: AutoResolveStatus, seen: Seq<i64>) -> Seq<
    AutoResolveCheckRun,
> {
    if status.all_checks_concluded {
        new_checks(status, seen)
    } else {
        Seq::empty()
    }
}

/// The outcome of a poll, given the addressed identifiers and the count of
/// iterations started so far.
pub open spec fn trigger_outcome(
    status: AutoResolveStatus,
    resolved: ResolvedFeedbackIds,
    count: int,
    user: Seq<char>,
) -> TriggerResult {
    let checks = new_checks(status, resolved.check_run_ids@);
    let comments = new_comments(status, resolved.comment_ids@, user);
    if status.pr_state != PrState::Open {
        TriggerResult::PrClosed
    } else if has_stale_review(status.reviews@, resolved.review_ids@) {
        TriggerResult::Escalated
    } else if checks.len() == 0 && comments.len() == 0 {
        TriggerResult::NoNewFeedback
    } else if effective_checks(status, resolved.check_run_ids@).len() == 0 && comments.len() == 0 {
        TriggerResult::WaitingForCi
    } else if count >= AUTO_RESOLVE_LIMIT {
        TriggerResult::LimitReached
    } else {
        TriggerResult::Triggered
    }
}

/// The identifiers recorded when an iteration is triggered: the addressed
/// checks, the new comments and the change requests not seen before.
pub open spec fn resolved_after(
    status: AutoResolveStatus,
    resolved: ResolvedFeedbackIds,
    user: Seq<char>,
) -> (Seq<i64>, Seq<i64>, Seq<i64>) {
    (
        resolved.check_run_ids@ + check_ids(effective_checks(status, resolved.check_run_ids@)),
        resolved.comment_ids@ + comment_ids(new_comments(status, resolved.comment_ids@, user)),
        resolved.review_ids@ + review_ids(
            keep(status.reviews@, open_change_request(resolved.review_ids@)),
        ),
    )
}

pub open spec fn ids_of(r: ResolvedFeedbackIds) -> (Seq<i64>, Seq<i64>, Seq<i64>) {
    (r.check_run_ids@, r.comment_ids@, r.review_ids@)
}

// ---------------------------------------------------------------------------
// Lemmas on `keep`
// ---------------------------------------------------------------------------

proof fn lemma_keep_subset<T>(s: Seq<T>, p: spec_fn(T) -> bool, x: T)
    ensures
        keep(s, p).contains(x) <==> (s.contains(x) && p(x)),
    decreases s.len(),
{
    if s.len() > 0 {
        let d = s.drop_last();
        let l = s.last();
        lemma_keep_subset(d, p, x);
        assert(s =~= d.push(l));
        assert(s.contains(x) <==> (d.contains(x) || x == l)) by {
            if s.contains(x) && x != l {
                let i = choose|i: int| 0 <= i < s.len() && s[i] == x;
                assert(d[i] == x);
            }
            if d.contains(x) {
                let i = choose|i: int| 0 <= i < d.len() && d[i] == x;
                assert(s[i] == x);
            }
            if x == l {
                assert(s[s.len() - 1] == x);
            }
        }
        let kd = keep(d, p);
        if p(l) {
            assert(kd.push(l).contains(x) <==> (kd.contains(x) || x == l)) by {
                if kd.push(l).contains(x) && x != l {
                    let i = choose|i: int| 0 <= i < kd.len() + 1 && kd.push(l)[i] == x;
                    assert(kd[i] == x);
                }
                if kd.contains(x) {
                    let i = choose|i: int| 0 <= i < kd.len() && kd[i] == x;
                    assert(kd.push(l)[i] == x);
                }
                if x == l {
                    assert(kd.push(l)[kd.len() as int] == x);
                }
            }
        }
    }
}

proof fn lemma_keep_none<T>(s: Seq<T>, p: spec_fn(T) -> bool)
    requires
        forall|i: int| 0 <= i < s.len() ==> !p(#[trigger] s[i]),
    ensures
        keep(s, p).len() == 0,
    decreases s.len(),
{
    if s.len() > 0 {
        lemma_keep_none(s.drop_last(), p);
    }
}

proof fn lemma_recorded_comment_seen(
    status: AutoResolveStatus,
    before: Seq<i64>,
    after: Seq<i64>,
    user: Seq<char>,
)
    requires
        after == before + comment_ids(new_comments(status, before, user)),
    ensures
        new_comments(status, after, user).len() == 0,
{
    let e = keep(status.comments@, is_external(user));
    let nc = new_comments(status, before, user);
    assert forall|i: int| 0 <= i < e.len() implies !(#[trigger] comment_unseen(after)(e[i])) by {
        let c = e[i];
        assert(e.contains(c));
        if !before.contains(c.id) {
            lemma_keep_subset(e, comment_unseen(before), c);
            let j = choose|j: int| 0 <= j < nc.len() && nc[j] == c;
            assert(after[before.len() + j] == c.id);
        } else {
            let j = choose|j: int| 0 <= j < before.len() && before[j] == c.id;
            assert(after[j] == c.id);
        }
    }
    lemma_keep_none(e, comment_unseen(after));
}

proof fn lemma_recorded_check_seen(status: AutoResolveStatus, before: Seq<i64>, after: Seq<i64>)
    requires
        after == before + check_ids(effective_checks(status, before)),
    ensures
        effective_checks(status, after).len() == 0,
{
    if status.all_checks_concluded {
        let f = status.failed_checks@;
        let nc = new_checks(status, before);
        assert forall|i: int| 0 <= i < f.len() implies !(#[trigger] check_unseen(after)(f[i])) by {
            let c = f[i];
            assert(f.contains(c));
            if !before.contains(c.id) {
                lemma_keep_subset(f, check_unseen(before), c);
                let j = choose|j: int| 0 <= j < nc.len() && nc[j] == c;
                assert(after[before.len() + j] == c.id);
            } else {
                let j = choose|j: int| 0 <= j < before.len() && before[j] == c.id;
                assert(after[j] == c.id);
            }
        }
        lemma_keep_none(f, check_unseen(after));
    }
}

/// Each piece of feedback starts at most one iteration: once an iteration was
/// triggered and its feedback recorded, polling the same pull request status
/// again does not trigger another one.
pub proof fn law_feedback_triggers_once(
    status: AutoResolveStatus,
    before: ResolvedFeedbackIds,
    after: ResolvedFeedbackIds,
    count: int,
    user: Seq<char>,
)
    requires
        trigger_outcome(status, before, count, user) == TriggerResult::Triggered,
        ids_of(after) == resolved_after(status, before, user),
    ensures
        trigger_outcome(status, after, count + 1, user) != TriggerResult::Triggered,
{
    lemma_recorded_comment_seen(status, before.comment_ids@, after.comment_ids@, user);
    lemma_recorded_check_seen(status, before.check_run_ids@, after.check_run_ids@);
}

// ---------------------------------------------------------------------------
// Executable parts
// ---------------------------------------------------------------------------

fn contains_id(ids: &Vec<i64>, id: i64) -> (r: bool)
    ensures
        r == ids@.contains(id),
{
    let mut i: usize = 0;
    while i < ids.len()
        invariant
            i <= ids.len(),
            forall|j: int| 0 <= j < i ==> ids@[j] != id,
        decreases ids.len() - i,
    {
        if ids[i] == id {
            return true;
        }
        i = i + 1;
    }
    false
}

/// Which failed checks and comments are new relative to the addressed
/// identifiers, and whether an addressed change request is still standing.
pub fn compute_new_feedback<'a>(
    status: &'a AutoResolveStatus,
    external_comments: &[&'a AutoResolveComment],
    resolved: &ResolvedFeedbackIds,
) -> (r: NewFeedback<'a>)
    ensures
        check_values(r.checks@) == new_checks(*status, resolved.check_run_ids@),
        comment_values(r.comments@) == keep(
            comment_values(external_comments@),
            comment_unseen(resolved.comment_ids@),
        ),
        r.stale_changes_requested == has_stale_review(status.reviews@, resolved.review_ids@),
{
    let fc = &status.failed_checks;
    let mut checks: Vec<&'a AutoResolveCheckRun> = Vec::new();
    let mut i: usize = 0;
    assert(fc@.take(0) =~= Seq::<AutoResolveCheckRun>::empty());
    assert(check_values(checks@) =~= Seq::<AutoResolveCheckRun>::empty());
    while i < fc.len()
        invariant
            i <= fc.len(),
            check_values(checks@) == keep(fc@.take(i as int), check_unseen(resolved.check_run_ids@)),
        decreases fc.len() - i,
    {
        assert(fc@.take(i + 1).drop_last() =~= fc@.take(i as int));
        assert(fc@.take(i + 1).last() == fc@[i as int]);
        let c = &fc[i];
        if !contains_id(&resolved.check_run_ids, c.id) {
            let ghost before = check_values(checks@);
            checks.push(c);
            assert(check_values(checks@) =~= before.push(*c));
        }
        i = i + 1;
    }
    assert(fc@.take(fc.len() as int) =~= fc@);

    let mut comments: Vec<&'a AutoResolveComment> = Vec::new();
    let mut k: usize = 0;
    let ghost ext = comment_values(external_comments@);
    assert(ext.take(0) =~= Seq::<AutoResolveComment>::empty());
    assert(comment_values(comments@) =~= Seq::<AutoResolveComment>::empty());
    while k < external_comments.len()
        invariant
            k <= external_comments.len(),
            ext == comment_values(external_comments@),
            comment_values(comments@) == keep(ext.take(k as int), comment_unseen(resolved.comment_ids@)),
        decreases external_comments.len() - k,
    {
        assert(ext.take(k + 1).drop_last() =~= ext.take(k as int));
        assert(ext.take(k + 1).last() == ext[k as int]);
        let c: &'a AutoResolveComment = external_comments[k];
        if !contains_id(&resolved.comment_ids, c.id) {
            let ghost before = comment_values(comments@);
            comments.push(c);
            assert(comment_values(comments@) =~= before.push(*c));
        }
        k = k + 1;
    }
    assert(ext.take(external_comments.len() as int) =~= ext);

    let rv = &status.reviews;
    let mut stale = false;
    let mut j: usize = 0;
    while j < rv.len()
        invariant
            j <= rv.len(),
            stale == (exists|m: int|
                0 <= m < j && rv@[m].state == ReviewState::ChangesRequested
                    && resolved.review_ids@.contains(#[trigger] rv@[m].id)),
        decreases rv.len() - j,
    {
        let r = &rv[j];
        if matches!(r.state, ReviewState::ChangesRequested) && contains_id(&resolved.review_ids, r.id) {
            stale = true;
        }
        j = j + 1;
    }
    NewFeedback { checks, comments, stale_changes_requested: stale }
}

fn external_comments_of<'a>(status: &'a AutoResolveStatus, user: &str) -> (r: Vec<&'a AutoResolveComment>)
    ensures
        comment_values(r@) == keep(status.comments@, is_external(user@)),
{
    let cs = &status.comments;
    let mut out: Vec<&'a AutoResolveComment> = Vec::new();
    let mut i: usize = 0;
    assert(cs@.take(0) =~= Seq::<AutoResolveComment>::empty());
    assert(comment_values(out@) =~= Seq::<AutoResolveComment>::empty());
    while i < cs.len()
        invariant
            i <= cs.len(),
            comment_values(out@) == keep(cs@.take(i as int), is_external(user@)),
        decreases cs.len() - i,
    {
        assert(cs@.take(i + 1).drop_last() =~= cs@.take(i as int));
        assert(cs@.take(i + 1).last() == cs@[i as int]);
        let c = &cs[i];
        if !str_eq(c.author.as_str(), user) {
            let ghost before = comment_values(out@);
            out.push(c);
            assert(comment_values(out@) =~= before.push(*c));
        }
        i = i + 1;
    }
    assert(cs@.take(cs.len() as int) =~= cs@);
    out
}

fn push_check_ids(ids: &mut Vec<i64>, checks: &Vec<&AutoResolveCheckRun>)
    ensures
        final(ids)@ == old(ids)@ + check_ids(check_values(checks@)),
{
    let ghost start = ids@;
    let mut i: usize = 0;
    while i < checks.len()
        invariant
            i <= checks.len(),
            ids@ == start + check_ids(check_values(checks@).take(i as int)),
        decreases checks.len() - i,
    {
        ids.push(checks[i].id);
        i = i + 1;
        assert(check_ids(check_values(checks@).take(i as int)) =~= check_ids(
            check_values(checks@).take(i - 1),
        ).push(checks@[i - 1].id));
    }
    assert(check_values(checks@).take(checks.len() as int) =~= check_values(checks@));
}

fn push_comment_ids(ids: &mut Vec<i64>, comments: &Vec<&AutoResolveComment>)
    ensures
        final(ids)@ == old(ids)@ + comment_ids(comment_values(comments@)),
{
    let ghost start = ids@;
    let mut i: usize = 0;
    while i < comments.len()
        invariant
            i <= comments.len(),
            ids@ == start + comment_ids(comment_values(comments@).take(i as int)),
        decreases comments.len() - i,
    {
        ids.push(comments[i].id);
        i = i + 1;
        assert(comment_ids(comment_values(comments@).take(i as int)) =~= comment_ids(
            comment_values(comments@).take(i - 1),
        ).push(comments@[i - 1].id));
    }
    assert(comment_values(comments@).take(comments.len() as int) =~= comment_values(comments@));
}

fn push_open_change_requests(ids: &mut Vec<i64>, reviews: &Vec<AutoResolveReview>)
    ensures
        final(ids)@ == old(ids)@ + review_ids(keep(reviews@, open_change_request(old(ids)@))),
{
    let ghost seen = ids@;
    let mut added: Vec<i64> = Vec::new();
    let mut i: usize = 0;
    assert(reviews@.take(0) =~= Seq::<AutoResolveReview>::empty());
    while i < reviews.len()
        invariant
            i <= reviews.len(),
            ids@ == seen,
            added@ == review_ids(keep(reviews@.take(i as int), open_change_request(seen))),
        decreases reviews.len() - i,
    {
        assert(reviews@.take(i + 1).drop_last() =~= reviews@.take(i as int));
        assert(reviews@.take(i + 1).last() == reviews@[i as int]);
        let r = &reviews[i];
        if matches!(r.state, ReviewState::ChangesRequested) && !contains_id(ids, r.id) {
            let ghost before = keep(reviews@.take(i as int), open_change_request(seen));
            added.push(r.id);
            assert(review_ids(before.push(*r)) =~= review_ids(before).push(r.id));
        }
        i = i + 1;
    }
    assert(reviews@.take(reviews.len() as int) =~= reviews@);
    let mut k: usize = 0;
    while k < added.len()
        invariant
            k <= added.len(),
            ids@ == seen + added@.take(k as int),
        decreases added.len() - k,
    {
        ids.push(added[k]);
        k = k + 1;
        assert(added@.take(k as int) =~= added@.take(k - 1).push(added@[k - 1]));
    }
    assert(added@.take(added.len() as int) =~= added@);
}

/// Decides what a poll of a task's pull request leads to, and records it in
/// the task's auto-resolve fields.
///
/// A closed pull request changes nothing. A standing change request that was
/// already addressed, or reaching the iteration limit, switches auto-resolve
/// off. A triggered iteration records the addressed checks, comments and
/// change requests, counts one more iteration, and hands back the comments
/// and checks it addresses. Comments by `authenticated_user` are never
/// feedback; failed checks count only once CI has concluded.
pub fn decide<'a>(
    progress: &mut AutoResolveProgress,
    status: &'a AutoResolveStatus,
    authenticated_user: &str,
) -> (r: TriggerDecision<'a>)
    ensures
        r.result == trigger_outcome(
            *status,
            old(progress).resolved_feedback_ids,
            old(progress).auto_resolve_count as int,
            authenticated_user@,
        ),
        r.result == TriggerResult::Triggered ==> {
            &&& comment_values(r.comments@) == new_comments(
                *status,
                old(progress).resolved_feedback_ids.comment_ids@,
                authenticated_user@,
            )
            &&& check_values(r.checks@) == effective_checks(
                *status,
                old(progress).resolved_feedback_ids.check_run_ids@,
            )
            &&& ids_of(final(progress).resolved_feedback_ids) == resolved_after(
                *status,
                old(progress).resolved_feedback_ids,
                authenticated_user@,
            )
            &&& final(progress).auto_resolve_count == old(progress).auto_resolve_count + 1
            &&& final(progress).auto_resolve == old(progress).auto_resolve
        },
        r.result != TriggerResult::Triggered ==> {
            &&& r.comments@.len() == 0
            &&& r.checks@.len() == 0
            &&& ids_of(final(progress).resolved_feedback_ids) == ids_of(
                old(progress).resolved_feedback_ids,
            )
            &&& final(progress).auto_resolve_count == old(progress).auto_resolve_count
            &&& final(progress).auto_resolve == (old(progress).auto_resolve && r.result
                != TriggerResult::Escalated && r.result != TriggerResult::LimitReached)
        },
{
    let none = TriggerDecision { result: TriggerResult::PrClosed, comments: Vec::new(), checks: Vec::new() };
    if !matches!(status.pr_state, PrState::Open) {
        return none;
    }
    let external = external_comments_of(status, authenticated_user);
    let feedback = compute_new_feedback(status, external.as_slice(), &progress.resolved_feedback_ids);
    if feedback.stale_changes_requested {
        progress.auto_resolve = false;
        return TriggerDecision { result: TriggerResult::Escalated, ..none };
    }
    if feedback.checks.len() == 0 && feedback.comments.len() == 0 {
        return TriggerDecision { result: TriggerResult::NoNewFeedback, ..none };
    }
    let effective: Vec<&'a AutoResolveCheckRun> = if status.all_checks_concluded {
        feedback.checks
    } else {
        Vec::new()
    };
    if effective.len() == 0 && feedback.comments.len() == 0 {
        return TriggerDecision { result: TriggerResult::WaitingForCi, ..none };
    }
    if progress.auto_resolve_count >= AUTO_RESOLVE_LIMIT {
        progress.auto_resolve = false;
        return TriggerDecision { result: TriggerResult::LimitReached, ..none };
    }
    push_check_ids(&mut progress.resolved_feedback_ids.check_run_ids, &effective);
    push_comment_ids(&mut progress.resolved_feedback_ids.comment_ids, &feedback.comments);
    push_open_change_requests(&mut progress.resolved_feedback_ids.review_ids, &status.reviews);
    progress.auto_resolve_count = progress.auto_resolve_count + 1;
    TriggerDecision { result: TriggerResult::Triggered, comments: feedback.comments, checks: effective }
}

} // verus!
