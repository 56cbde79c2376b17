//! Stable ordering of records by a text key (timestamps in RFC 3339 sort
//! correctly as text).

use vstd::prelude::*;

use crate::text::{lemma_text_lt_asym, lemma_text_lt_total, lemma_text_lt_trans, text_le, text_lt};

verus! {

/// Inserts `x` after every element whose key is not greater than its key.
pub open spec fn insert_sorted<T>(s: Seq<T>, x: T, key: spec_fn(T) -> Seq<char>) -> Seq<T>
    decreases s.len(),
{
    if s.len() == 0 {
        seq![x]
    } else if text_le(key(s.last()), key(x)) {
        s.push(x)
    } else {
        insert_sorted(s.drop_last(), x, key).push(s.last())
    }
}

/// Stable sort of `s` by `key` (equal keys keep their relative order).
pub open spec fn stable_sort<T>(s: Seq<T>, key: spec_fn(T) -> Seq<char>) -> Seq<T>
    decreases s.len(),
{
    if s.len() == 0 {
        s
    } else {
        insert_sorted(stable_sort(s.drop_last(), key), s.last(), key)
    }
}

/// Keys never decrease along `s`.
pub open spec fn sorted_by<T>(s: Seq<T>, key: spec_fn(T) -> Seq<char>) -> bool {
    forall|i: int, j: int| 0 <= i < j < s.len() ==> text_le(key(#[trigger] s[i]), key(#[trigger] s[j]))
}

pub proof fn lemma_text_le_trans(a: Seq<char>, b: Seq<char>, c: Seq<char>)
    requires
        text_le(a, b),
        text_le(b, c),
    ensures
        text_le(a, c),
{
    if a != b && b != c {
        lemma_text_lt_trans(a, b, c);
    }
}

/// Inserting at `pos` is what `insert_sorted` does when every key from `pos`
/// on is greater than the key of `x` and the key before `pos` is not.
pub proof fn lemma_insert_sorted_at<T>(s: Seq<T>, x: T, key: spec_fn(T) -> Seq<char>, pos: int)
    requires
        0 <= pos <= s.len(),
        forall|j: int| pos <= j < s.len() ==> text_lt(key(x), key(#[trigger] s[j])),
        pos == 0 || text_le(key(s[pos - 1]), key(x)),
    ensures
        insert_sorted(s, x, key) == s.insert(pos, x),
    decreases s.len() - pos,
{
    if s.len() == 0 {
        assert(s.insert(pos, x) =~= seq![x]);
    } else if pos == s.len() {
        assert(text_le(key(s.last()), key(x)));
        assert(s.insert(pos, x) =~= s.push(x));
    } else {
        let t = s.drop_last();
        assert(text_lt(key(x), key(s.last())));
        lemma_text_lt_asym(key(x), key(s.last()));
        crate::text::lemma_text_lt_irreflexive(key(x));
        assert(!text_le(key(s.last()), key(x)));
        assert forall|j: int| pos <= j < t.len() implies text_lt(key(x), key(#[trigger] t[j])) by {
            assert(t[j] == s[j]);
        }
        if pos > 0 {
            assert(t[pos - 1] == s[pos - 1]);
        }
        lemma_insert_sorted_at(t, x, key, pos);
        assert(t.insert(pos, x).push(s.last()) =~= s.insert(pos, x));
    }
}

pub proof fn lemma_insert_sorted_keeps_order<T>(s: Seq<T>, x: T, key: spec_fn(T) -> Seq<char>)
    requires
        sorted_by(s, key),
    ensures
        sorted_by(insert_sorted(s, x, key), key),
        insert_sorted(s, x, key).len() == s.len() + 1,
    decreases s.len(),
{
    if s.len() == 0 {
    } else if text_le(key(s.last()), key(x)) {
        let r = s.push(x);
        assert forall|i: int, j: int| 0 <= i < j < r.len() implies text_le(key(#[trigger] r[i]), key(#[trigger] r[j])) by {
            if j == s.len() {
                if i < s.len() - 1 {
                    assert(text_le(key(s[i]), key(s[s.len() - 1])));
                    lemma_text_le_trans(key(s[i]), key(s.last()), key(x));
                }
            }
        }
    } else {
        let t = s.drop_last();
        assert(sorted_by(t, key)) by {
            assert forall|i: int, j: int| 0 <= i < j < t.len() implies text_le(key(#[trigger] t[i]), key(#[trigger] t[j])) by {
                assert(t[i] == s[i] && t[j] == s[j]);
            }
        }
        lemma_insert_sorted_keeps_order(t, x, key);
        let u = insert_sorted(t, x, key);
        let r = u.push(s.last());
        lemma_text_lt_total(key(s.last()), key(x));
        assert(text_lt(key(x), key(s.last())));
        lemma_insert_sorted_elements(t, x, key);
        assert forall|i: int, j: int| 0 <= i < j < r.len() implies text_le(key(#[trigger] r[i]), key(#[trigger] r[j])) by {
            if j == u.len() {
                // every element of u is either x or an element of t
                if u[i] == x {
                } else {
                    let k = choose|k: int| 0 <= k < t.len() && t[k] == u[i];
                    assert(t[k] == s[k]);
                    assert(text_le(key(s[k]), key(s[s.len() - 1])));
                }
            }
        }
    }
}

pub proof fn lemma_insert_sorted_elements<T>(s: Seq<T>, x: T, key: spec_fn(T) -> Seq<char>)
    ensures
        forall|i: int| 0 <= i < insert_sorted(s, x, key).len() ==>
            insert_sorted(s, x, key)[i] == x || exists|k: int| 0 <= k < s.len() && s[k] == insert_sorted(s, x, key)[i],
        insert_sorted(s, x, key).len() == s.len() + 1,
    decreases s.len(),
{
    if s.len() == 0 {
    } else if text_le(key(s.last()), key(x)) {
        let r = s.push(x);
        assert forall|i: int| 0 <= i < r.len() implies r[i] == x || exists|k: int| 0 <= k < s.len() && s[k] == r[i] by {
            if i < s.len() {
                assert(s[i] == r[i]);
            }
        }
    } else {
        let t = s.drop_last();
        lemma_insert_sorted_elements(t, x, key);
        let u = insert_sorted(t, x, key);
        let r = u.push(s.last());
        assert forall|i: int| 0 <= i < r.len() implies r[i] == x || exists|k: int| 0 <= k < s.len() && s[k] == r[i] by {
            if i == u.len() {
                assert(s[s.len() - 1] == r[i]);
            } else if u[i] != x {
                let k = choose|k: int| 0 <= k < t.len() && t[k] == u[i];
                assert(s[k] == t[k]);
            }
        }
    }
}

/// A stable sort produces keys in non-decreasing order.
pub proof fn lemma_stable_sort_sorted<T>(s: Seq<T>, key: spec_fn(T) -> Seq<char>)
    ensures
        sorted_by(stable_sort(s, key), key),
        stable_sort(s, key).len() == s.len(),
    decreases s.len(),
{
    if s.len() > 0 {
        lemma_stable_sort_sorted(s.drop_last(), key);
        lemma_insert_sorted_keeps_order(stable_sort(s.drop_last(), key), s.last(), key);
    }
}

/// Inserts `x` after every trailing element that `le` puts at or before it.
pub open spec fn insert_ordered<T>(s: Seq<T>, x: T, le: spec_fn(T, T) -> bool) -> Seq<T>
    decreases s.len(),
{
    if s.len() == 0 {
        seq![x]
    } else if le(s.last(), x) {
        s.push(x)
    } else {
        insert_ordered(s.drop_last(), x, le).push(s.last())
    }
}

/// Stable insertion sort of `s` by the order `le` (as `sort_by` with a
/// comparison that agrees with `le`).
pub open spec fn sort_ordered<T>(s: Seq<T>, le: spec_fn(T, T) -> bool) -> Seq<T>
    decreases s.len(),
{
    if s.len() == 0 {
        s
    } else {
        insert_ordered(sort_ordered(s.drop_last(), le), s.last(), le)
    }
}

/// Inserting at `pos` is what `insert_ordered` does when no element from
/// `pos` on is at or before `x` and the one before `pos` is.
pub proof fn lemma_insert_ordered_at<T>(s: Seq<T>, x: T, le: spec_fn(T, T) -> bool, pos: int)
    requires
        0 <= pos <= s.len(),
        forall|j: int| pos <= j < s.len() ==> !le(#[trigger] s[j], x),
        pos == 0 || le(s[pos - 1], x),
    ensures
        insert_ordered(s, x, le) == s.insert(pos, x),
    decreases s.len() - pos,
{
    if s.len() == 0 {
        assert(s.insert(pos, x) =~= seq![x]);
    } else if pos == s.len() {
        assert(s.insert(pos, x) =~= s.push(x));
    } else {
        let t = s.drop_last();
        assert(!le(s[s.len() - 1], x));
        assert forall|j: int| pos <= j < t.len() implies !le(#[trigger] t[j], x) by {
            assert(t[j] == s[j]);
        }
        if pos > 0 {
            assert(t[pos - 1] == s[pos - 1]);
        }
        lemma_insert_ordered_at(t, x, le, pos);
        assert(t.insert(pos, x).push(s.last()) =~= s.insert(pos, x));
    }
}

/// The elements of `s` that satisfy `p`, in order.
pub open spec fn keep<T>(s: Seq<T>, p: spec_fn(T) -> bool) -> Seq<T>
    decreases s.len(),
{
    if s.len() == 0 {
        s
    } else if p(s.last()) {
        keep(s.drop_last(), p).push(s.last())
    } else {
        keep(s.drop_last(), p)
    }
}

pub proof fn lemma_keep_all<T>(s: Seq<T>, p: spec_fn(T) -> bool)
    requires
        forall|x: T| #[trigger] p(x),
    ensures
        keep(s, p) == s,
    decreases s.len(),
{
    if s.len() > 0 {
        lemma_keep_all(s.drop_last(), p);
        assert(s.drop_last().push(s.last()) =~= s);
    }
}

} // verus!
