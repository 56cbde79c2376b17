//! File-system paths as text, joined the way `Path::join` joins them on Unix.

use vstd::prelude::*;

use crate::text::{
    chars_of, has_prefix, last_where, lemma_last_where_in_range, owned, push_str, str_starts_with,
    string_from_chars,
};

verus! {

/// `base` joined with `rest`: an absolute `rest` replaces `base`, and a `/`
/// goes between them unless `base` is empty or already ends with one.
pub open spec fn path_join(base: Seq<char>, rest: Seq<char>) -> Seq<char> {
    if has_prefix(rest, "/"@) {
        rest
    } else if base.len() == 0 || base.last() == '/' {
        base + rest
    } else {
        base + "/"@ + rest
    }
}

/// Joins two paths.
pub fn join_path(base: &str, rest: &str) -> (r: String)
    ensures
        r@ == path_join(base@, rest@),
{
    if str_starts_with(rest, "/") {
        return owned(rest);
    }
    let b = chars_of(base);
    let mut out = owned(base);
    if b.len() == 0 || b[b.len() - 1] == '/' {
        push_str(&mut out, rest);
    } else {
        push_str(&mut out, "/");
        push_str(&mut out, rest);
    }
    out
}

/// The file of the pending output of a task's stage: `<task_id>_<stage>.json`.
pub open spec fn pending_file_name(task_id: Seq<char>, stage: Seq<char>) -> Seq<char> {
    task_id + "_"@ + stage + ".json"@
}

/// Builds `<task_id>_<stage>.json`.
pub fn pending_file(task_id: &str, stage: &str) -> (r: String)
    ensures
        r@ == pending_file_name(task_id@, stage@),
{
    let mut s = owned(task_id);
    push_str(&mut s, "_");
    push_str(&mut s, stage);
    push_str(&mut s, ".json");
    s
}

pub open spec fn is_char(c: char) -> spec_fn(char) -> bool {
    |x: char| x == c
}

/// Stem and extension of a file name, as `Path::file_stem` and
/// `Path::extension` give them: the name splits at its last `.`, unless there
/// is none, that dot is the first character, or the name is `..`.
pub open spec fn stem_and_extension(name: Seq<char>) -> (Seq<char>, Option<Seq<char>>) {
    if name == ".."@ {
        (name, None)
    } else {
        match last_where(name, is_char('.')) {
            Some(k) => if k > 0 {
                (name.take(k), Some(name.skip(k + 1)))
            } else {
                (name, None)
            },
            None => (name, None),
        }
    }
}

/// The task and stage a pending-output file name stands for: the name must
/// have the extension `json`, and its stem splits at its last `_`.
pub open spec fn pending_entry(name: Seq<char>) -> Option<(Seq<char>, Seq<char>)> {
    let (stem, ext) = stem_and_extension(name);
    if ext == Some("json"@) {
        match last_where(stem, is_char('_')) {
            Some(u) => Some((stem.take(u), stem.skip(u + 1))),
            None => None,
        }
    } else {
        None
    }
}

/// Reads a pending-output file name back into its task and stage.
pub fn parse_pending_file_name(name: &str) -> (r: Option<(String, String)>)
    ensures
        r is Some <==> pending_entry(name@) is Some,
        r is Some ==> r.unwrap().0@ == pending_entry(name@).unwrap().0,
        r is Some ==> r.unwrap().1@ == pending_entry(name@).unwrap().1,
{
    let v = chars_of(name);
    proof {
        reveal_strlit("..");
        reveal_strlit("json");
    }
    if v.len() == 2 && v[0] == '.' && v[1] == '.' {
        assert(v@ =~= ".."@);
        return None;
    }
    assert(v@ != ".."@ ==> name@ != ".."@);
    let mut k = v.len();
    assert(v@.take(k as int) =~= v@);
    while k > 0 && v[k - 1] != '.'
        invariant
            k <= v.len(),
            last_where(v@, is_char('.')) == last_where(v@.take(k as int), is_char('.')),
        decreases k,
    {
        assert(v@.take(k as int).drop_last() =~= v@.take(k - 1));
        k = k - 1;
    }
    if k <= 1 {
        if k == 0 {
            assert(v@.take(0) =~= Seq::<char>::empty());
        } else {
            assert(v@.take(1).last() == v@[0]);
        }
        return None;
    }
    let dot = k - 1;
    assert(v@.take(k as int).last() == v@[dot as int]);
    if !(v.len() - dot == 5 && v[dot + 1] == 'j' && v[dot + 2] == 's' && v[dot + 3] == 'o'
        && v[dot + 4] == 'n') {
        assert(v@.skip(dot + 1) != "json"@ ) by {
            if v@.skip(dot + 1) == "json"@ {
                assert(v@.skip(dot + 1).len() == 4);
                assert(v@.skip(dot + 1)[0] == v@[dot + 1]);
                assert(v@.skip(dot + 1)[1] == v@[dot + 2]);
                assert(v@.skip(dot + 1)[2] == v@[dot + 3]);
                assert(v@.skip(dot + 1)[3] == v@[dot + 4]);
            }
        }
        return None;
    }
    assert(v@.skip(dot + 1) =~= "json"@);
    let ghost stem = v@.take(dot as int);
    let mut u = dot;
    assert(stem.take(u as int) =~= stem);
    while u > 0 && v[u - 1] != '_'
        invariant
            u <= dot < v.len(),
            stem == v@.take(dot as int),
            last_where(stem, is_char('_')) == last_where(stem.take(u as int), is_char('_')),
        decreases u,
    {
        assert(stem.take(u as int).drop_last() =~= stem.take(u - 1));
        assert(stem[u - 1] == v@[u - 1]);
        u = u - 1;
    }
    if u == 0 {
        assert(stem.take(0) =~= Seq::<char>::empty());
        return None;
    }
    assert(stem.take(u as int).last() == v@[u - 1]);
    let task = string_from_chars(&v, 0, u - 1);
    let stage = string_from_chars(&v, u, dot);
    assert(stem.take(u - 1) =~= v@.subrange(0, u - 1));
    assert(stem.skip(u as int) =~= v@.subrange(u as int, dot as int));
    Some((task, stage))
}

/// A pending-output file name reads back as the task and stage it was made
/// from, when the stage has no `_` in it.
pub proof fn law_pending_name_round_trip(task_id: Seq<char>, stage: Seq<char>)
    requires
        !stage.contains('_'),
    ensures
        pending_entry(pending_file_name(task_id, stage)) == Some((task_id, stage)),
{
    reveal_strlit("_");
    reveal_strlit(".json");
    reveal_strlit("json");
    reveal_strlit("..");
    let name = pending_file_name(task_id, stage);
    let stem = task_id + "_"@ + stage;
    assert(name =~= stem + ".json"@);
    let n = name.len();
    assert(name[n - 5] == '.');
    assert(name.take(n - 4) =~= name.take(n - 5).push('.'));
    assert(last_where(name.take(n - 4), is_char('.')) == Some(n - 5));
    assert(last_where(name.take(n - 3), is_char('.')) == Some(n - 5)) by {
        assert(name.take(n - 3).drop_last() =~= name.take(n - 4));
    }
    assert(last_where(name.take(n - 2), is_char('.')) == Some(n - 5)) by {
        assert(name.take(n - 2).drop_last() =~= name.take(n - 3));
    }
    assert(last_where(name.take(n - 1), is_char('.')) == Some(n - 5)) by {
        assert(name.take(n - 1).drop_last() =~= name.take(n - 2));
    }
    assert(last_where(name, is_char('.')) == Some(n - 5)) by {
        assert(name.drop_last() =~= name.take(n - 1));
    }
    assert(name != ".."@) by {
        if name == ".."@ {
            assert(name.len() == 2);
        }
    }
    assert(name.take(n - 5) =~= stem);
    assert(name.skip(n - 4) =~= "json"@);
    lemma_last_underscore(task_id, stage, stage.len());
    assert(stem.take(task_id.len() + 1int + stage.len()) =~= stem);
    assert(stem_and_extension(name) == (stem, Some("json"@)));
    assert(stem.take(task_id.len() as int) =~= task_id);
    assert(stem.skip(task_id.len() + 1int) =~= stage);
}

proof fn lemma_last_underscore(task_id: Seq<char>, stage: Seq<char>, m: nat)
    requires
        !stage.contains('_'),
        m <= stage.len(),
    ensures
        last_where((task_id + "_"@ + stage).take(task_id.len() + 1int + m), is_char('_')) == Some(
            task_id.len() as int,
        ),
    decreases m,
{
    reveal_strlit("_");
    let stem = task_id + "_"@ + stage;
    let t = stem.take(task_id.len() + 1int + m);
    if m == 0 {
        assert(t.last() == '_');
    } else {
        lemma_last_underscore(task_id, stage, (m - 1) as nat);
        assert(t.drop_last() =~= stem.take(task_id.len() + m as int));
        assert(t.last() == stage[m - 1]);
        assert(stage[m - 1] != '_') by {
            if stage[m - 1] == '_' {
                assert(stage.contains('_'));
            }
        }
    }
}

} // verus!
