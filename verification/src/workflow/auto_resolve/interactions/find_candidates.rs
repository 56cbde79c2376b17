//! Finds the tasks whose pull requests are polled for feedback.

use vstd::prelude::*;

use crate::workflow::domain::sorting::keep;
use crate::workflow::domain::task::{TaskHeader, TickSnapshot};

verus! {

/// A candidate: opted in, has a pull request, and is top-level.
pub open spec fn is_candidate() -> spec_fn(TaskHeader) -> bool {
    |h: TaskHeader| h.auto_resolve && h.pr_url is Some && h.parent_id is None
}

/// Headers behind references.
pub open spec fn header_values(v: Seq<&TaskHeader>) -> Seq<TaskHeader> {
    Seq::new(v.len(), |i: int| *v[i])
}

/// The idle done tasks of the snapshot that are candidates for polling, in
/// snapshot order.
pub fn execute(snapshot: &TickSnapshot) -> (r: Vec<&TaskHeader>)
    ensures
        header_values(r@) == keep(snapshot.idle_done_with_worktree@, is_candidate()),
{
    let v = &snapshot.idle_done_with_worktree;
    let mut out: Vec<&TaskHeader> = Vec::new();
    let mut i: usize = 0;
    assert(v@.take(0) =~= Seq::<TaskHeader>::empty());
    assert(header_values(out@) =~= Seq::<TaskHeader>::empty());
    while i < v.len()
        invariant
            i <= v.len(),
            header_values(out@) == keep(v@.take(i as int), is_candidate()),
        decreases v.len() - i,
    {
        assert(v@.take(i + 1).drop_last() =~= v@.take(i as int));
        assert(v@.take(i + 1).last() == v@[i as int]);
        let h = &v[i];
        if h.auto_resolve && h.has_open_pr() && h.parent_id.is_none() {
            let ghost before = header_values(out@);
            out.push(h);
            assert(header_values(out@) =~= before.push(*h));
        }
        i = i + 1;
    }
    assert(v@.take(v.len() as int) =~= v@);
    out
}

} // verus!
