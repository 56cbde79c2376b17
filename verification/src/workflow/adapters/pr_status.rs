//! What a pull request poll learns from the `gh` CLI's JSON: the pull
//! request state, its failed and pending checks, its review comments and its
//! reviews. The CLI is run by the application; the JSON is read here.

use vstd::prelude::*;

use crate::text::{chars_of, owned, parse_u64_chars, parse_unsigned, push_str, str_eq};
use crate::utility::json::{field, get_field, parse_json, JsonValue};
use crate::workflow::adapters::gh_pr_service::PrError;
use crate::workflow::auto_resolve::interactions::trigger_feedback::{
    AutoResolveCheckRun, AutoResolveComment, AutoResolveReview, AutoResolveStatus, PrState, ReviewState,
};

verus! {

/// How a check run stands.
#[derive(Debug, Clone, Copy, PartialEq, Eq, Structural)]
pub enum CheckStatus {
    Passing,
    Failing,
    Pending,
}

/// A check fails when it concluded with a failure, a timeout, a cancellation,
/// a required action or a failed start; it is pending while it has not
/// completed or has no conclusion yet; otherwise it passes.
pub open spec fn check_status_of(status: Option<Seq<char>>, conclusion: Option<Seq<char>>) -> CheckStatus {
    match conclusion {
        Some(c) => if c == "FAILURE"@ || c == "TIMED_OUT"@ || c == "CANCELLED"@ || c == "ACTION_REQUIRED"@
            || c == "STARTUP_FAILURE"@ {
            CheckStatus::Failing
        } else if status matches Some(s) && s != "COMPLETED"@ {
            CheckStatus::Pending
        } else {
            CheckStatus::Passing
        },
        None => CheckStatus::Pending,
    }
}

/// Classifies a check run by its `status` and `conclusion` fields.
pub fn classify_check(status: Option<&str>, conclusion: Option<&str>) -> (r: CheckStatus)
    ensures
        r == check_status_of(opt_text(status), opt_text(conclusion)),
{
    match conclusion {
        Some(c) => {
            if str_eq(c, "FAILURE") || str_eq(c, "TIMED_OUT") || str_eq(c, "CANCELLED") || str_eq(
                c,
                "ACTION_REQUIRED",
            ) || str_eq(c, "STARTUP_FAILURE") {
                CheckStatus::Failing
            } else {
                match status {
                    Some(s) => if str_eq(s, "COMPLETED") {
                        CheckStatus::Passing
                    } else {
                        CheckStatus::Pending
                    },
                    None => CheckStatus::Passing,
                }
            }
        },
        None => CheckStatus::Pending,
    }
}

pub open spec fn opt_text(o: Option<&str>) -> Option<Seq<char>> {
    match o {
        Some(s) => Some(s@),
        None => None,
    }
}

/// The state `gh` reports: `OPEN`, `MERGED`, and anything else as closed.
pub open spec fn pr_state_of(s: Seq<char>) -> PrState {
    if s == "OPEN"@ {
        PrState::Open
    } else if s == "MERGED"@ {
        PrState::Merged
    } else {
        PrState::Closed
    }
}

/// A review state as GitHub writes it; anything unknown counts as a comment.
pub open spec fn review_state_of(s: Seq<char>) -> ReviewState {
    if s == "APPROVED"@ {
        ReviewState::Approved
    } else if s == "CHANGES_REQUESTED"@ {
        ReviewState::ChangesRequested
    } else if s == "DISMISSED"@ {
        ReviewState::Dismissed
    } else if s == "PENDING"@ {
        ReviewState::Pending
    } else {
        ReviewState::Commented
    }
}

// ---------------------------------------------------------------------------
// Reading values (`Value::as_str`, `as_i64`, `as_u64`, `as_array`)
// ---------------------------------------------------------------------------

/// `v.as_str()`.
pub open spec fn as_text(v: Option<JsonValue>) -> Option<Seq<char>> {
    match v {
        Some(JsonValue::Str(s)) => Some(s@),
        _ => None,
    }
}

/// `v.as_i64()`: an integer, in the range of `i64`.
pub open spec fn as_i64(v: Option<JsonValue>) -> Option<int> {
    match v {
        Some(JsonValue::Number(t)) => if t@.len() > 0 && t@[0] == '-' {
            match parse_unsigned(t@.drop_first(), 0x8000_0000_0000_0000) {
                Some(n) => Some(-n),
                None => None,
            }
        } else {
            match parse_unsigned(t@, i64::MAX as nat) {
                Some(n) => Some(n as int),
                None => None,
            }
        },
        _ => None,
    }
}

/// `v.as_u64()`.
pub open spec fn as_u64(v: Option<JsonValue>) -> Option<nat> {
    match v {
        Some(JsonValue::Number(t)) => parse_unsigned(t@, u64::MAX as nat),
        _ => None,
    }
}

/// The items of `v` when it is an array (`v.as_array()`).
pub open spec fn items_of(v: Option<JsonValue>) -> Seq<JsonValue> {
    match v {
        Some(JsonValue::Array(items)) => items@,
        _ => Seq::empty(),
    }
}

/// `v[a][b]`, missing when either step is.
pub open spec fn field2(v: JsonValue, a: Seq<char>, b: Seq<char>) -> Option<JsonValue> {
    match field(v, a) {
        Some(x) => field(x, b),
        None => None,
    }
}

fn text_of(v: Option<&JsonValue>) -> (r: Option<&str>)
    ensures
        opt_text(r) == as_text(match v {
            Some(x) => Some(*x),
            None => None,
        }),
{
    match v {
        Some(JsonValue::Str(s)) => Some(s.as_str()),
        _ => None,
    }
}

fn i64_of(v: Option<&JsonValue>) -> (r: Option<i64>)
    ensures
        match as_i64(
            match v {
                Some(x) => Some(*x),
                None => None,
            },
        ) {
            Some(n) => r == Some(n as i64),
            None => r is None,
        },
{
    match v {
        Some(JsonValue::Number(t)) => {
            let c = chars_of(t.as_str());
            if c.len() > 0 && c[0] == '-' {
                assert(c@.subrange(1, c@.len() as int) =~= t@.drop_first());
                match parse_u64_chars(&c, 1, c.len()) {
                    Some(n) => if n == 0x8000_0000_0000_0000u64 {
                        Some(i64::MIN)
                    } else if n < 0x8000_0000_0000_0000u64 {
                        Some(-(n as i64))
                    } else {
                        None
                    },
                    None => None,
                }
            } else {
                assert(c@.subrange(0, c@.len() as int) =~= t@);
                match parse_u64_chars(&c, 0, c.len()) {
                    Some(n) => if n <= 0x7fff_ffff_ffff_ffffu64 {
                        Some(n as i64)
                    } else {
                        None
                    },
                    None => None,
                }
            }
        },
        _ => None,
    }
}

fn u64_of(v: Option<&JsonValue>) -> (r: Option<u64>)
    ensures
        match as_u64(
            match v {
                Some(x) => Some(*x),
                None => None,
            },
        ) {
            Some(n) => r == Some(n as u64),
            None => r is None,
        },
{
    match v {
        Some(JsonValue::Number(t)) => {
            let c = chars_of(t.as_str());
            assert(c@.subrange(0, c@.len() as int) =~= t@);
            parse_u64_chars(&c, 0, c.len())
        },
        _ => None,
    }
}

fn field_of<'a>(v: &'a JsonValue, key: &str) -> (r: Option<&'a JsonValue>)
    ensures
        match field(*v, key@) {
            Some(x) => r == Some(&x),
            None => r is None,
        },
{
    match v {
        JsonValue::Object(fields) => get_field(fields, key),
        _ => None,
    }
}

fn field2_of<'a>(v: &'a JsonValue, a: &str, b: &str) -> (r: Option<&'a JsonValue>)
    ensures
        match field2(*v, a@, b@) {
            Some(x) => r == Some(&x),
            None => r is None,
        },
{
    match field_of(v, a) {
        Some(x) => field_of(x, b),
        None => None,
    }
}

// ---------------------------------------------------------------------------
// The status
// ---------------------------------------------------------------------------

pub open spec fn text_or(t: Option<Seq<char>>, default: Seq<char>) -> Seq<char> {
    match t {
        Some(s) => s,
        None => default,
    }
}

pub open spec fn id_or_zero(n: Option<int>) -> i64 {
    match n {
        Some(k) => k as i64,
        None => 0,
    }
}

pub open spec fn check_class(c: JsonValue) -> CheckStatus {
    check_status_of(as_text(field(c, "status"@)), as_text(field(c, "conclusion"@)))
}

/// A failed check as (id, name, log excerpt).
pub open spec fn check_view(c: AutoResolveCheckRun) -> (i64, Seq<char>, Option<Seq<char>>) {
    (c.id, c.name@, match c.log_excerpt {
        Some(s) => Some(s@),
        None => None,
    })
}

/// The failed checks among `items`, with the `databaseId` (0 when missing)
/// and the `name` (`unknown` when missing).
pub open spec fn failed_checks_of(items: Seq<JsonValue>) -> Seq<(i64, Seq<char>, Option<Seq<char>>)>
    decreases items.len(),
{
    if items.len() == 0 {
        Seq::empty()
    } else {
        let rest = failed_checks_of(items.drop_last());
        let c = items.last();
        if check_class(c) == CheckStatus::Failing {
            rest.push(
                (
                    id_or_zero(as_i64(field(c, "databaseId"@))),
                    text_or(as_text(field(c, "name"@)), "unknown"@),
                    None,
                ),
            )
        } else {
            rest
        }
    }
}

/// A comment as (id, author, body, path, line).
pub open spec fn comment_view(c: AutoResolveComment) -> (i64, Seq<char>, Seq<char>, Option<Seq<char>>, Option<u32>) {
    (c.id, c.author@, c.body@, match c.path {
        Some(p) => Some(p@),
        None => None,
    }, c.line)
}

/// `line`, else `original_line`, when it fits a `u32`.
pub open spec fn comment_line(c: JsonValue) -> Option<u32> {
    let l = match as_u64(field(c, "line"@)) {
        Some(n) => Some(n),
        None => as_u64(field(c, "original_line"@)),
    };
    match l {
        Some(n) => if n <= u32::MAX {
            Some(n as u32)
        } else {
            None
        },
        None => None,
    }
}

pub open spec fn comment_of(c: JsonValue) -> (i64, Seq<char>, Seq<char>, Option<Seq<char>>, Option<u32>) {
    (
        id_or_zero(as_i64(field(c, "id"@))),
        text_or(as_text(field2(c, "user"@, "login"@)), ""@),
        text_or(as_text(field(c, "body"@)), ""@),
        as_text(field(c, "path"@)),
        comment_line(c),
    )
}

/// A review as (id, author, state).
pub open spec fn review_view(r: AutoResolveReview) -> (i64, Seq<char>, ReviewState) {
    (r.id, r.author@, r.state)
}

pub open spec fn review_of(r: JsonValue) -> (i64, Seq<char>, ReviewState) {
    (
        id_or_zero(as_i64(field(r, "id"@))),
        text_or(as_text(field2(r, "user"@, "login"@)), ""@),
        review_state_of(text_or(as_text(field(r, "state"@)), "COMMENTED"@)),
    )
}

/// The status a poll reads from the `gh pr view` JSON (`state`,
/// `statusCheckRollup`), the review comments and the reviews.
pub open spec fn status_holds(s: AutoResolveStatus, pr: JsonValue, comments: JsonValue, reviews: JsonValue) -> bool {
    let checks = items_of(field(pr, "statusCheckRollup"@));
    let cs = items_of(Some(comments));
    let rs = items_of(Some(reviews));
    &&& s.pr_state == pr_state_of(text_or(as_text(field(pr, "state"@)), "UNKNOWN"@))
    &&& s.failed_checks@.map_values(|c: AutoResolveCheckRun| check_view(c)) == failed_checks_of(checks)
    &&& s.all_checks_concluded == (forall|i: int| 0 <= i < checks.len() ==> check_class(#[trigger] checks[i]) != CheckStatus::Pending)
    &&& s.comments@.map_values(|c: AutoResolveComment| comment_view(c)) == cs.map_values(|c: JsonValue| comment_of(c))
    &&& s.reviews@.map_values(|r: AutoResolveReview| review_view(r)) == rs.map_values(|r: JsonValue| review_of(r))
}

/// Each review comment of a polled status keeps its current `line` when the
/// JSON has one that fits a `u32`, whatever `original_line` says;
/// `original_line` is used only when `line` is absent or not a number. There
/// is one comment per item of the comments JSON, in order.
pub proof fn law_comment_line_prefers_line(s: AutoResolveStatus, pr: JsonValue, comments: JsonValue, reviews: JsonValue)
    requires
        status_holds(s, pr, comments, reviews),
    ensures
        s.comments@.len() == items_of(Some(comments)).len(),
        forall|i: int|
            0 <= i < s.comments@.len() ==> match as_u64(field(#[trigger] items_of(Some(comments))[i], "line"@)) {
                Some(n) => n <= u32::MAX ==> s.comments@[i].line == Some(n as u32),
                None => match as_u64(field(items_of(Some(comments))[i], "original_line"@)) {
                    Some(n) => n <= u32::MAX ==> s.comments@[i].line == Some(n as u32),
                    None => s.comments@[i].line is None,
                },
            },
{
    let cs = items_of(Some(comments));
    let views = s.comments@.map_values(|c: AutoResolveComment| comment_view(c));
    assert(views.len() == s.comments@.len());
    assert(views.len() == cs.len());
    assert forall|i: int| 0 <= i < s.comments@.len() implies #[trigger] s.comments@[i].line == comment_line(cs[i]) by {
        assert(views[i] == comment_view(s.comments@[i]));
        assert(views[i] == comment_of(cs[i]));
    }
}

fn opt_owned(o: Option<&str>) -> (r: Option<String>)
    ensures
        match r {
            Some(s) => opt_text(o) == Some(s@),
            None => o is None,
        },
{
    match o {
        Some(s) => Some(owned(s)),
        None => None,
    }
}

fn pr_state_from(s: &str) -> (r: PrState)
    ensures
        r == pr_state_of(s@),
{
    if str_eq(s, "OPEN") {
        PrState::Open
    } else if str_eq(s, "MERGED") {
        PrState::Merged
    } else {
        PrState::Closed
    }
}

fn review_state_from(s: &str) -> (r: ReviewState)
    ensures
        r == review_state_of(s@),
{
    if str_eq(s, "APPROVED") {
        ReviewState::Approved
    } else if str_eq(s, "CHANGES_REQUESTED") {
        ReviewState::ChangesRequested
    } else if str_eq(s, "DISMISSED") {
        ReviewState::Dismissed
    } else if str_eq(s, "PENDING") {
        ReviewState::Pending
    } else {
        ReviewState::Commented
    }
}

fn text_or_default(t: Option<&str>, default: &str) -> (r: String)
    ensures
        r@ == text_or(opt_text(t), default@),
{
    match t {
        Some(s) => owned(s),
        None => owned(default),
    }
}

fn id_or_zero_exec(n: Option<i64>) -> (r: i64)
    ensures
        r == id_or_zero(
            match n {
                Some(k) => Some(k as int),
                None => None,
            },
        ),
{
    match n {
        Some(k) => k,
        None => 0,
    }
}

fn items_ref(v: Option<&JsonValue>) -> (r: Option<&Vec<JsonValue>>)
    ensures
        match r {
            Some(x) => x@ == items_of(
                match v {
                    Some(y) => Some(*y),
                    None => None,
                },
            ),
            None => items_of(
                match v {
                    Some(y) => Some(*y),
                    None => None,
                },
            ) == Seq::<JsonValue>::empty(),
        },
{
    match v {
        Some(JsonValue::Array(items)) => Some(items),
        _ => None,
    }
}

/// Reads the status of a pull request from the three JSON documents a poll
/// fetched: the pull request with its checks, its review comments and its
/// reviews.
pub fn status_from_values(pr: &JsonValue, comments: &JsonValue, reviews: &JsonValue) -> (r: AutoResolveStatus)
    ensures
        status_holds(r, *pr, *comments, *reviews),
{
    proof {
        reveal_strlit("state");
        reveal_strlit("statusCheckRollup");
        reveal_strlit("status");
        reveal_strlit("conclusion");
        reveal_strlit("databaseId");
        reveal_strlit("name");
        reveal_strlit("id");
        reveal_strlit("user");
        reveal_strlit("login");
        reveal_strlit("body");
        reveal_strlit("path");
        reveal_strlit("line");
        reveal_strlit("original_line");
    }
    let state = text_or_default(text_of(field_of(pr, "state")), "UNKNOWN");
    let pr_state = pr_state_from(state.as_str());

    let empty: Vec<JsonValue> = Vec::new();
    let checks = match items_ref(field_of(pr, "statusCheckRollup")) {
        Some(x) => x,
        None => &empty,
    };
    let ghost cv = items_of(field(*pr, "statusCheckRollup"@));
    assert(checks@ == cv);
    let mut failed_checks: Vec<AutoResolveCheckRun> = Vec::new();
    let mut all_checks_concluded = true;
    let mut i: usize = 0;
    assert(cv.take(0) =~= Seq::<JsonValue>::empty());
    while i < checks.len()
        invariant
            i <= checks.len(),
            checks@ == cv,
            failed_checks@.map_values(|c: AutoResolveCheckRun| check_view(c)) == failed_checks_of(cv.take(i as int)),
            all_checks_concluded == (forall|j: int| 0 <= j < i ==> check_class(#[trigger] cv[j]) != CheckStatus::Pending),
        decreases checks.len() - i,
    {
        let c = &checks[i];
        assert(cv.take(i + 1).drop_last() =~= cv.take(i as int));
        assert(cv.take(i + 1).last() == *c);
        let class = classify_check(text_of(field_of(c, "status")), text_of(field_of(c, "conclusion")));
        if matches!(class, CheckStatus::Failing) {
            let id = id_or_zero_exec(i64_of(field_of(c, "databaseId")));
            let name = text_or_default(text_of(field_of(c, "name")), "unknown");
            let ghost before = failed_checks@.map_values(|x: AutoResolveCheckRun| check_view(x));
            failed_checks.push(AutoResolveCheckRun { id, name, log_excerpt: None });
            assert(failed_checks@.map_values(|x: AutoResolveCheckRun| check_view(x)) =~= before.push(
                check_view(failed_checks@.last()),
            ));
        } else if matches!(class, CheckStatus::Pending) {
            all_checks_concluded = false;
        }
        i = i + 1;
    }
    assert(cv.take(checks.len() as int) =~= cv);

    let cs = match items_ref(Some(comments)) {
        Some(x) => x,
        None => &empty,
    };
    let ghost csv = items_of(Some(*comments));
    let mut out_comments: Vec<AutoResolveComment> = Vec::new();
    let mut k: usize = 0;
    while k < cs.len()
        invariant
            k <= cs.len(),
            cs@ == csv,
            out_comments@.map_values(|c: AutoResolveComment| comment_view(c)) == csv.take(k as int).map_values(
                |c: JsonValue| comment_of(c),
            ),
        decreases cs.len() - k,
    {
        let c = &cs[k];
        let id = id_or_zero_exec(i64_of(field_of(c, "id")));
        let author = text_or_default(text_of(field2_of(c, "user", "login")), "");
        let body = text_or_default(text_of(field_of(c, "body")), "");
        let path = opt_owned(text_of(field_of(c, "path")));
        let l = match u64_of(field_of(c, "line")) {
            Some(n) => Some(n),
            None => u64_of(field_of(c, "original_line")),
        };
        let line = match l {
            Some(n) => if n <= 0xffff_ffffu64 {
                Some(n as u32)
            } else {
                None
            },
            None => None,
        };
        let ghost before = out_comments@.map_values(|x: AutoResolveComment| comment_view(x));
        out_comments.push(AutoResolveComment { id, author, body, path, line });
        assert(comment_view(out_comments@.last()) == comment_of(csv[k as int]));
        assert(out_comments@.map_values(|x: AutoResolveComment| comment_view(x)) =~= before.push(
            comment_of(csv[k as int]),
        ));
        assert(csv.take(k + 1).map_values(|x: JsonValue| comment_of(x)) =~= csv.take(k as int).map_values(
            |x: JsonValue| comment_of(x),
        ).push(comment_of(csv[k as int])));
        k = k + 1;
    }
    assert(csv.take(cs.len() as int) =~= csv);

    let rs = match items_ref(Some(reviews)) {
        Some(x) => x,
        None => &empty,
    };
    let ghost rsv = items_of(Some(*reviews));
    let mut out_reviews: Vec<AutoResolveReview> = Vec::new();
    let mut m: usize = 0;
    while m < rs.len()
        invariant
            m <= rs.len(),
            rs@ == rsv,
            out_reviews@.map_values(|r: AutoResolveReview| review_view(r)) == rsv.take(m as int).map_values(
                |r: JsonValue| review_of(r),
            ),
        decreases rs.len() - m,
    {
        let r = &rs[m];
        let id = id_or_zero_exec(i64_of(field_of(r, "id")));
        let author = text_or_default(text_of(field2_of(r, "user", "login")), "");
        let st = text_or_default(text_of(field_of(r, "state")), "COMMENTED");
        let state = review_state_from(st.as_str());
        let ghost before = out_reviews@.map_values(|x: AutoResolveReview| review_view(x));
        out_reviews.push(AutoResolveReview { id, author, state });
        assert(out_reviews@.map_values(|x: AutoResolveReview| review_view(x)) =~= before.push(
            review_of(rsv[m as int]),
        ));
        assert(rsv.take(m + 1).map_values(|x: JsonValue| review_of(x)) =~= rsv.take(m as int).map_values(
            |x: JsonValue| review_of(x),
        ).push(review_of(rsv[m as int])));
        m = m + 1;
    }
    assert(rsv.take(rs.len() as int) =~= rsv);

    AutoResolveStatus {
        pr_state,
        failed_checks,
        comments: out_comments,
        reviews: out_reviews,
        all_checks_concluded,
    }
}

/// The three documents a pull request poll reads.
#[derive(Debug, Clone, Copy, PartialEq, Eq)]
pub enum PrDocument {
    /// `gh pr view` with the state and the checks.
    PrView,
    /// The review comments.
    Comments,
    /// The reviews.
    Reviews,
}

/// What the error of a document that is not JSON starts with.
pub open spec fn document_error_prefix(d: PrDocument) -> Seq<char> {
    match d {
        PrDocument::PrView => "Failed to parse pr view output: "@,
        PrDocument::Comments => "Failed to parse comments: "@,
        PrDocument::Reviews => "Failed to parse reviews: "@,
    }
}

/// Reads one document of a poll as JSON; a text that is not JSON gives
/// `ReadFailed` with the document's prefix and the parser's message.
pub fn parse_pr_document(d: PrDocument, text: &str) -> (r: Result<JsonValue, PrError>)
    ensures
        match crate::utility::json::json_of(text@) {
            Ok(v) => r == Ok::<JsonValue, PrError>(v),
            Err(m) => r matches Err(PrError::ReadFailed(e)) && e@ == document_error_prefix(d) + m,
        },
{
    match parse_json(text) {
        Ok(v) => Ok(v),
        Err(e) => {
            let mut m = match d {
                PrDocument::PrView => owned("Failed to parse pr view output: "),
                PrDocument::Comments => owned("Failed to parse comments: "),
                PrDocument::Reviews => owned("Failed to parse reviews: "),
            };
            push_str(&mut m, e.as_str());
            Err(PrError::ReadFailed(m))
        },
    }
}

/// The status of a pull request from the raw output of its three `gh` runs,
/// or the error of the first document that is not JSON.
pub fn parse_auto_resolve_status(pr_json: &str, comments_json: &str, reviews_json: &str) -> (r: Result<
    AutoResolveStatus,
    PrError,
>)
    ensures
        match (json_of_all(pr_json@, comments_json@, reviews_json@)) {
            Ok(t) => r matches Ok(s) && status_holds(s, t.0, t.1, t.2),
            Err(m) => r matches Err(PrError::ReadFailed(e)) && e@ == m,
        },
{
    let pr = match parse_pr_document(PrDocument::PrView, pr_json) {
        Ok(v) => v,
        Err(e) => return Err(e),
    };
    let comments = match parse_pr_document(PrDocument::Comments, comments_json) {
        Ok(v) => v,
        Err(e) => return Err(e),
    };
    let reviews = match parse_pr_document(PrDocument::Reviews, reviews_json) {
        Ok(v) => v,
        Err(e) => return Err(e),
    };
    Ok(status_from_values(&pr, &comments, &reviews))
}

/// The three documents as JSON, or the message of the first that is not.
pub open spec fn json_of_all(pr: Seq<char>, comments: Seq<char>, reviews: Seq<char>) -> Result<
    (JsonValue, JsonValue, JsonValue),
    Seq<char>,
> {
    match crate::utility::json::json_of(pr) {
        Err(e) => Err("Failed to parse pr view output: "@ + e),
        Ok(p) => match crate::utility::json::json_of(comments) {
            Err(e) => Err("Failed to parse comments: "@ + e),
            Ok(c) => match crate::utility::json::json_of(reviews) {
                Err(e) => Err("Failed to parse reviews: "@ + e),
                Ok(r) => Ok((p, c, r)),
            },
        },
    }
}

} // verus!
