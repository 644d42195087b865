//! The concurrent tables that hold the plugin's state: `dashmap::DashMap`
//! for the instance and agent tables, and an `arc_swap::ArcSwap` cell for
//! the shared-instance list. Each wrapper states, over a name for the
//! table's contents, what the call does to it and what it returns.
//!
//! The tables are changed through `&mut` here although the outside types
//! allow shared mutation: the plugin owns them exclusively, so what Verus
//! sees of them cannot change behind its back.
use std::collections::hash_map::RandomState;
use std::sync::Arc;
use vstd::prelude::*;

use crate::backend::InstanceState;

verus! {

/// `dashmap::DashMap`, opaque: what it holds is named below.
#[verifier::external_type_specification]
#[verifier::external_body]
#[verifier::reject_recursive_types(K)]
#[verifier::reject_recursive_types(V)]
#[verifier::reject_recursive_types(S)]
pub struct ExDashMap<K, V, S>(dashmap::DashMap<K, V, S>);

pub type InstanceTable = dashmap::DashMap<String, Arc<InstanceState>, RandomState>;

pub type AgentTable = dashmap::DashMap<String, Vec<String>, RandomState>;

/// What the instance table holds: instance id to bundle.
pub uninterp spec fn instance_entries(m: dashmap::DashMap<String, Arc<InstanceState>, RandomState>) -> Map<Seq<char>, Arc<InstanceState>>;

/// What the agent table holds: agent id to its ordered private instance ids.
pub uninterp spec fn agent_entries(m: dashmap::DashMap<String, Vec<String>, RandomState>) -> Map<Seq<char>, Seq<Seq<char>>>;

pub open spec fn no_instances() -> Map<Seq<char>, Arc<InstanceState>> {
    Map::empty()
}

pub open spec fn no_agents() -> Map<Seq<char>, Seq<Seq<char>>> {
    Map::empty()
}

/// `DashMap::new`: an empty table.
#[verifier::external_body]
pub(crate) fn instance_table_new() -> (r: InstanceTable)
    ensures
        instance_entries(r) == no_instances(),
{
    dashmap::DashMap::new()
}

/// `DashMap::len`: the number of entries.
#[verifier::external_body]
pub(crate) fn instance_table_len(m: &InstanceTable) -> (n: usize)
    ensures
        n == instance_entries(*m).len(),
{
    m.len()
}

/// `DashMap::insert`: the key now maps to the value; every other entry stays.
#[verifier::external_body]
pub(crate) fn instance_table_insert(m: &mut InstanceTable, key: String, value: Arc<InstanceState>)
    ensures
        instance_entries(*final(m)) == instance_entries(*old(m)).insert(key@, value),
{
    m.insert(key, value);
}

/// `DashMap::get`, with the bundle pointer cloned out of the guard.
#[verifier::external_body]
pub(crate) fn instance_table_get(m: &InstanceTable, key: &str) -> (r: Option<Arc<InstanceState>>)
    ensures
        r == (if instance_entries(*m).contains_key(key@) {
            Some(instance_entries(*m)[key@])
        } else {
            None
        }),
{
    m.get(key).map(|e| Arc::clone(e.value()))
}

/// `DashMap::iter`, collecting the keys. The order is the table's own
/// walk order, which the crate leaves unspecified: every key comes out
/// once and nothing else does.
#[verifier::external_body]
pub(crate) fn instance_table_keys(m: &InstanceTable) -> (r: Vec<String>)
    ensures
        r@.len() == instance_entries(*m).len(),
        forall|i: int, j: int| 0 <= i < j < r@.len() ==> r@[i]@ != r@[j]@,
        forall|i: int| 0 <= i < r@.len() ==> instance_entries(*m).contains_key(#[trigger] r@[i]@),
        forall|k: Seq<char>|
            instance_entries(*m).contains_key(k) ==> exists|i: int|
                0 <= i < r@.len() && #[trigger] r@[i]@ == k,
{
    m.iter().map(|e| e.key().clone()).collect()
}

/// `DashMap::new`: an empty table.
#[verifier::external_body]
pub(crate) fn agent_table_new() -> (r: AgentTable)
    ensures
        agent_entries(r) == no_agents(),
{
    dashmap::DashMap::new()
}

/// `DashMap::len`: the number of entries.
#[verifier::external_body]
pub(crate) fn agent_table_len(m: &AgentTable) -> (n: usize)
    ensures
        n == agent_entries(*m).len(),
{
    m.len()
}

/// `DashMap::insert`: the key now maps to the value; every other entry stays.
#[verifier::external_body]
pub(crate) fn agent_table_insert(m: &mut AgentTable, key: String, value: Vec<String>)
    ensures
        agent_entries(*final(m)) == agent_entries(*old(m)).insert(key@, value.deep_view()),
{
    m.insert(key, value);
}

/// `DashMap::get`, with the list cloned out of the guard.
#[verifier::external_body]
pub(crate) fn agent_table_get(m: &AgentTable, key: &str) -> (r: Option<Vec<String>>)
    ensures
        match r {
            Some(v) => agent_entries(*m).contains_key(key@) && v.deep_view()
                == agent_entries(*m)[key@],
            None => !agent_entries(*m).contains_key(key@),
        },
{
    m.get(key).map(|e| e.value().clone())
}

/// `DashMap::iter`, collecting the entries in the table's own walk order,
/// which the crate leaves unspecified: every entry comes out once and
/// nothing else does.
#[verifier::external_body]
pub(crate) fn agent_table_entries(m: &AgentTable) -> (r: Vec<(String, Vec<String>)>)
    ensures
        r@.len() == agent_entries(*m).len(),
        forall|i: int, j: int| 0 <= i < j < r@.len() ==> r@[i].0@ != r@[j].0@,
        forall|i: int|
            0 <= i < r@.len() ==> agent_entries(*m).contains_key(#[trigger] r@[i].0@)
                && agent_entries(*m)[r@[i].0@] == r@[i].1.deep_view(),
        forall|k: Seq<char>|
            agent_entries(*m).contains_key(k) ==> exists|i: int|
                0 <= i < r@.len() && #[trigger] r@[i].0@ == k,
{
    m.iter().map(|e| (e.key().clone(), e.value().clone())).collect()
}

/// The shared-instance list, held in an `arc_swap::ArcSwap` so readers
/// never block a reload. Its strategy type sits in a private module of
/// `arc-swap`, so the cell is kept in a field of this struct.
#[verifier::external_body]
pub struct SharedIds {
    cell: arc_swap::ArcSwap<Vec<String>>,
}

/// What the shared cell currently holds.
pub uninterp spec fn shared_entries(s: SharedIds) -> Seq<Seq<char>>;

impl SharedIds {
    /// `ArcSwap::from_pointee`: a cell holding the list.
    #[verifier::external_body]
    pub(crate) fn from_ids(ids: Vec<String>) -> (s: SharedIds)
        ensures
            shared_entries(s) == ids.deep_view(),
    {
        SharedIds { cell: arc_swap::ArcSwap::from_pointee(ids) }
    }

    /// `ArcSwap::load_full`, with the list cloned out.
    #[verifier::external_body]
    pub(crate) fn load(&self) -> (r: Vec<String>)
        ensures
            r.deep_view() == shared_entries(*self),
    {
        (*self.cell.load_full()).clone()
    }
}

} // verus!
