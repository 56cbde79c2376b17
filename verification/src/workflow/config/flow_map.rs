//! The named flows of a workflow are kept in an `indexmap::IndexMap`, which
//! preserves the order flows were declared in. These items let verified code
//! read it.

use indexmap::IndexMap;
use vstd::prelude::*;

use crate::workflow::config::workflow::FlowConfig;

verus! {

/// Declares `indexmap::IndexMap` to the verifier; its contents are read only
/// through the wrappers below.
#[verifier::external_type_specification]
#[verifier::external_body]
#[verifier::reject_recursive_types(K)]
#[verifier::reject_recursive_types(V)]
#[verifier::reject_recursive_types(S)]
pub struct ExIndexMap<K, V, S>(IndexMap<K, V, S>);

/// The entries of a flow map, as (name, flow) pairs in map order. The
/// wrappers below state what each `IndexMap` method does to them; the keys of
/// an `IndexMap` are distinct.
pub uninterp spec fn flow_entries(m: IndexMap<String, FlowConfig>) -> Seq<(Seq<char>, FlowConfig)>;

/// Position of the entry named `name`, the first one if several matched.
pub open spec fn flow_position(e: Seq<(Seq<char>, FlowConfig)>, name: Seq<char>) -> Option<int> {
    if exists|i: int| 0 <= i < e.len() && e[i].0 == name {
        Some(choose|i: int| 0 <= i < e.len() && e[i].0 == name && forall|j: int| 0 <= j < i ==> e[j].0 != name)
    } else {
        None
    }
}

/// An empty flow map (`IndexMap::new`).
#[verifier::external_body]
pub(crate) fn flows_new() -> (m: IndexMap<String, FlowConfig>)
    ensures
        flow_entries(m) == Seq::<(Seq<char>, FlowConfig)>::empty(),
{
    IndexMap::new()
}

/// Number of flows (`IndexMap::len`).
#[verifier::external_body]
pub(crate) fn flows_len(m: &IndexMap<String, FlowConfig>) -> (r: usize)
    ensures
        r == flow_entries(*m).len(),
{
    m.len()
}

/// The entry at position `i` (`IndexMap::get_index`).
#[verifier::external_body]
pub(crate) fn flows_get_index(m: &IndexMap<String, FlowConfig>, i: usize) -> (r: Option<(&String, &FlowConfig)>)
    ensures
        i < flow_entries(*m).len() ==> (r is Some && r.unwrap().0@ == flow_entries(*m)[i as int].0
            && *r.unwrap().1 == flow_entries(*m)[i as int].1),
        i >= flow_entries(*m).len() ==> r is None,
{
    m.get_index(i)
}

/// The flow named `name` (`IndexMap::get`).
#[verifier::external_body]
pub(crate) fn flows_get<'a>(m: &'a IndexMap<String, FlowConfig>, name: &str) -> (r: Option<&'a FlowConfig>)
    ensures
        match flow_position(flow_entries(*m), name@) {
            Some(i) => r matches Some(v) && *v == flow_entries(*m)[i].1,
            None => r is None,
        },
{
    m.get(name)
}

/// Whether a flow is named `name` (`IndexMap::contains_key`).
#[verifier::external_body]
pub(crate) fn flows_contains_key(m: &IndexMap<String, FlowConfig>, name: &str) -> (r: bool)
    ensures
        r == flow_position(flow_entries(*m), name@) is Some,
{
    m.contains_key(name)
}

/// Inserts a flow (`IndexMap::insert`): a flow already under `name` is
/// replaced in its place and handed back; otherwise the flow goes last.
#[verifier::external_body]
pub(crate) fn flows_insert(m: &mut IndexMap<String, FlowConfig>, name: String, flow: FlowConfig) -> (r: Option<FlowConfig>)
    ensures
        match flow_position(flow_entries(*old(m)), name@) {
            Some(i) => r == Some(flow_entries(*old(m))[i].1) && flow_entries(*final(m)) == flow_entries(
                *old(m),
            ).update(i, (name@, flow)),
            None => r is None && flow_entries(*final(m)) == flow_entries(*old(m)).push((name@, flow)),
        },
{
    m.insert(name, flow)
}

} // verus!
