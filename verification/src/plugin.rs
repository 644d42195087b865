//! Plugin state: the configured search instances, the agents' private
//! profiles and the shared profiles, and how a tool call picks one.
//!
//! Resolution for an agent's tool call:
//!   1. the call's explicit `instance` argument;
//!   2. the first private instance declared for the agent;
//!   3. the first shared instance (declared without `agent_id`);
//!   4. otherwise an error: nothing is configured for the agent.
use std::sync::Arc;
use vstd::prelude::*;

use crate::backend::{share, InstanceState};
use crate::config::{
    config_valid, lemma_valid_ids_distinct, validate_config, validation_outcome, ConfigError,
    WebSearchConfigFile, WebSearchInstance,
};
use crate::invoke::{InvokeError, ToolArgs};
use crate::tables::{
    agent_entries, agent_table_get, agent_table_insert, agent_table_len, agent_table_new,
    instance_entries, instance_table_get, instance_table_insert, instance_table_len,
    instance_table_new, shared_entries, AgentTable, InstanceTable, SharedIds,
};

verus! {

/// Every instance id declared in the file.
pub open spec fn declared_ids(insts: Seq<WebSearchInstance>) -> Set<Seq<char>> {
    Set::new(|k: Seq<char>| exists|i: int| 0 <= i < insts.len() && #[trigger] insts[i].id@ == k)
}

/// Instance `i` is private to agent `a`.
pub open spec fn private_to(inst: WebSearchInstance, a: Seq<char>) -> bool {
    match inst.agent_id {
        Some(x) => x@ == a,
        None => false,
    }
}

/// Every agent that has at least one private instance.
pub open spec fn declared_agents(insts: Seq<WebSearchInstance>) -> Set<Seq<char>> {
    Set::new(
        |a: Seq<char>| exists|i: int| 0 <= i < insts.len() && #[trigger] private_to(insts[i], a),
    )
}

/// The ids of the instances private to `a`, in declaration order.
pub open spec fn ids_for_agent(insts: Seq<WebSearchInstance>, a: Seq<char>) -> Seq<Seq<char>>
    decreases insts.len(),
{
    if insts.len() == 0 {
        Seq::empty()
    } else {
        let prev = ids_for_agent(insts.drop_last(), a);
        if private_to(insts.last(), a) {
            prev.push(insts.last().id@)
        } else {
            prev
        }
    }
}

/// The ids of the shared instances (no `agent_id`), in declaration order.
pub open spec fn shared_ids(insts: Seq<WebSearchInstance>) -> Seq<Seq<char>>
    decreases insts.len(),
{
    if insts.len() == 0 {
        Seq::empty()
    } else {
        let prev = shared_ids(insts.drop_last());
        if insts.last().agent_id is None {
            prev.push(insts.last().id@)
        } else {
            prev
        }
    }
}

/// An agent none of whose instances is private to it has no private ids.
pub proof fn lemma_no_private_ids(insts: Seq<WebSearchInstance>, a: Seq<char>)
    requires
        forall|j: int| 0 <= j < insts.len() ==> !#[trigger] private_to(insts[j], a),
    ensures
        ids_for_agent(insts, a) == Seq::<Seq<char>>::empty(),
    decreases insts.len(),
{
    if insts.len() > 0 {
        lemma_no_private_ids(insts.drop_last(), a);
        assert(!private_to(insts[insts.len() - 1], a));
    }
}

/// The bundles that building produced, one per instance.
pub open spec fn built_bundles(built: Seq<Result<Arc<InstanceState>, String>>) -> Seq<Arc<InstanceState>> {
    built.map_values(|b: Result<Arc<InstanceState>, String>| b->Ok_0)
}

pub open spec fn all_built(built: Seq<Result<Arc<InstanceState>, String>>) -> bool {
    forall|k: int| 0 <= k < built.len() ==> #[trigger] built[k] is Ok
}

/// Building instance `k` is the first that failed.
pub open spec fn first_build_failure(built: Seq<Result<Arc<InstanceState>, String>>, k: int) -> bool {
    &&& 0 <= k < built.len()
    &&& built[k] is Err
    &&& forall|j: int| 0 <= j < k ==> #[trigger] built[j] is Ok
}

/// The three tables agree: every id an agent list or the shared list
/// names is a configured instance, and no agent has an empty list.
pub open spec fn tables_consistent(
    instances: Map<Seq<char>, Arc<InstanceState>>,
    agents: Map<Seq<char>, Seq<Seq<char>>>,
    shared: Seq<Seq<char>>,
) -> bool {
    &&& instances.dom().finite()
    &&& agents.dom().finite()
    &&& forall|a: Seq<char>| #[trigger] agents.contains_key(a) ==> agents[a].len() > 0
    &&& forall|a: Seq<char>, k: int|
        agents.contains_key(a) && 0 <= k < agents[a].len() ==> instances.contains_key(
            #[trigger] agents[a][k],
        )
    &&& forall|k: int| 0 <= k < shared.len() ==> instances.contains_key(#[trigger] shared[k])
}

/// Process-wide plugin state. Each instance has its own provider set,
/// cache and router; many profiles live in one process.
pub struct WebSearchPlugin {
    /// instance id to bundle (router + cache handle).
    instances: InstanceTable,
    /// agent id to the ordered ids of its private instances; the first is
    /// the agent's default profile.
    by_agent: AgentTable,
    /// ids of the instances without an agent binding, shared by all agents.
    shared: SharedIds,
}

impl WebSearchPlugin {
    /// instance id to bundle.
    pub closed spec fn instance_map(&self) -> Map<Seq<char>, Arc<InstanceState>> {
        instance_entries(self.instances)
    }

    /// agent id to its private instance ids, in declaration order.
    pub closed spec fn agent_map(&self) -> Map<Seq<char>, Seq<Seq<char>>> {
        agent_entries(self.by_agent)
    }

    /// the shared instance ids, in declaration order.
    pub closed spec fn shared_seq(&self) -> Seq<Seq<char>> {
        shared_entries(self.shared)
    }

    /// The tables of a plugin always agree (see `tables_consistent`);
    /// `use_type_invariant` on a plugin yields this.
    #[verifier::type_invariant]
    pub closed spec fn consistent(self) -> bool {
        tables_consistent(self.instance_map(), self.agent_map(), self.shared_seq())
    }

    /// Unfolds `consistent` for callers outside this module.
    pub proof fn lemma_consistent(p: &WebSearchPlugin)
        requires
            p.consistent(),
        ensures
            tables_consistent(p.instance_map(), p.agent_map(), p.shared_seq()),
    {
    }

    /// The state that configuring with `insts` and these bundles leaves:
    /// exactly the declared instances, each with its own bundle, the
    /// private lists per agent and the shared list in declaration order.
    pub open spec fn configured_as(
        &self,
        insts: Seq<WebSearchInstance>,
        bundles: Seq<Arc<InstanceState>>,
    ) -> bool {
        &&& self.instance_map().dom() == declared_ids(insts)
        &&& forall|i: int|
            0 <= i < insts.len() ==> self.instance_map()[#[trigger] insts[i].id@] == bundles[i]
        &&& self.agent_map().dom() == declared_agents(insts)
        &&& forall|a: Seq<char>|
            #[trigger] declared_agents(insts).contains(a) ==> self.agent_map()[a] == ids_for_agent(
                insts,
                a,
            )
        &&& self.shared_seq() == shared_ids(insts)
    }

    /// The instance a call resolves to, if any (see the module docs).
    pub open spec fn resolution(&self, explicit: Option<Seq<char>>, agent: Seq<char>) -> Option<
        Seq<char>,
    > {
        match explicit {
            Some(x) => Some(x),
            None => if self.agent_map().contains_key(agent) && self.agent_map()[agent].len() > 0 {
                Some(self.agent_map()[agent][0])
            } else if self.shared_seq().len() > 0 {
                Some(self.shared_seq()[0])
            } else {
                None
            },
        }
    }

    pub(crate) fn instances_table(&self) -> (r: &InstanceTable)
        ensures
            instance_entries(*r) == self.instance_map(),
    {
        &self.instances
    }

    pub(crate) fn agents_table(&self) -> (r: &AgentTable)
        ensures
            agent_entries(*r) == self.agent_map(),
    {
        &self.by_agent
    }

    /// The shared instance ids, in declaration order.
    pub fn shared_ids_now(&self) -> (r: Vec<String>)
        ensures
            r.deep_view() == self.shared_seq(),
    {
        self.shared.load()
    }

    /// A plugin with nothing configured.
    pub fn new() -> (r: WebSearchPlugin)
        ensures
            r.instance_map().dom().is_empty(),
            r.agent_map().dom().is_empty(),
            r.shared_seq().len() == 0,
    {
        let r = WebSearchPlugin {
            instances: instance_table_new(),
            by_agent: agent_table_new(),
            shared: SharedIds::from_ids(Vec::new()),
        };
        proof {
            assert(r.instance_map().dom() =~= Set::empty());
            assert(r.agent_map().dom() =~= Set::empty());
        }
        r
    }

    /// Number of configured instances.
    pub fn instance_count(&self) -> (r: usize)
        ensures
            r == self.instance_map().len(),
    {
        instance_table_len(&self.instances)
    }

    /// Number of agents with at least one private instance.
    pub fn agent_count(&self) -> (r: usize)
        ensures
            r == self.agent_map().len(),
    {
        agent_table_len(&self.by_agent)
    }

    /// Number of shared instances.
    pub fn shared_count(&self) -> (r: usize)
        ensures
            r == self.shared_seq().len(),
    {
        let ids = self.shared.load();
        ids.len()
    }

    /// The private instance ids of an agent, in declaration order (empty
    /// for an agent without any).
    pub fn instances_for_agent(&self, agent_id: &str) -> (r: Vec<String>)
        ensures
            r.deep_view() == (if self.agent_map().contains_key(agent_id@) {
                self.agent_map()[agent_id@]
            } else {
                Seq::empty()
            }),
    {
        match agent_table_get(&self.by_agent, agent_id) {
            Some(v) => v,
            None => {
                let v: Vec<String> = Vec::new();
                proof {
                    assert(v.deep_view() =~= Seq::<Seq<char>>::empty());
                }
                v
            },
        }
    }

    /// The router of a configured instance.
    pub fn router_for(&self, instance_id: &str) -> (r: Result<
        Arc<nexo_web_search::WebSearchRouter>,
        InvokeError,
    >)
        ensures
            match r {
                Ok(router) => self.instance_map().contains_key(instance_id@) && router
                    == self.instance_map()[instance_id@].router,
                Err(e) => !self.instance_map().contains_key(instance_id@) && e
                    is NotConfigured && e->NotConfigured_instance_id@ == instance_id@,
            },
    {
        match instance_table_get(&self.instances, instance_id) {
            Some(bundle) => Ok(share(&bundle.router)),
            None => Err(InvokeError::NotConfigured { instance_id: instance_id.to_string() }),
        }
    }

    /// The bundle of a configured instance.
    pub fn bundle_for(&self, instance_id: &str) -> (r: Option<Arc<InstanceState>>)
        ensures
            r == (if self.instance_map().contains_key(instance_id@) {
                Some(self.instance_map()[instance_id@])
            } else {
                None
            }),
    {
        instance_table_get(&self.instances, instance_id)
    }

    /// Replace the whole state from a parsed `web-search.yaml` and the
    /// bundles built for its instances, in declaration order. Pre-flight
    /// runs first (unique ids, no shared cache file); then the first
    /// instance whose build failed is reported; only then is the state
    /// replaced, and instances absent from the new file are dropped.
    /// Refused configurations leave the state as it was.
    ///
    /// `built` holds one outcome per instance, in order, up to and
    /// including the first failure.
    pub fn on_configure(
        &mut self,
        file: WebSearchConfigFile,
        built: Vec<Result<Arc<InstanceState>, String>>,
    ) -> (r: Result<(), ConfigError>)
        requires
            built@.len() <= file.instances@.len(),
            config_valid(file.instances@) && all_built(built@) ==> built@.len()
                == file.instances@.len(),
        ensures
            !config_valid(file.instances@) ==> validation_outcome(file.instances@, r)
                && *final(self) == *old(self),
            config_valid(file.instances@) && !all_built(built@) ==> *final(self) == *old(self)
                && exists|k: int|
                #![trigger built@[k]]
                first_build_failure(built@, k) && r == Err::<(), ConfigError>(
                    ConfigError::Build {
                        id: file.instances@[k].id,
                        cause: built@[k]->Err_0,
                    },
                ),
            config_valid(file.instances@) && all_built(built@) ==> r is Ok
                && final(self).configured_as(file.instances@, built_bundles(built@)),
    {
        match validate_config(&file) {
            Ok(()) => {},
            Err(e) => {
                return Err(e);
            },
        }
        let insts = &file.instances;
        let n = insts.len();
        // The first failed build, if any, refuses the configuration.
        let mut bundles: Vec<Arc<InstanceState>> = Vec::new();
        let mut k: usize = 0;
        while k < built.len()
            invariant
                k <= built@.len(),
                built@.len() <= n,
                n == insts@.len(),
                insts@ == file.instances@,
                config_valid(insts@),
                bundles@.len() == k,
                forall|j: int| 0 <= j < k ==> #[trigger] built@[j] is Ok,
                forall|j: int| 0 <= j < k ==> #[trigger] bundles@[j] == built@[j]->Ok_0,
            decreases built@.len() - k,
        {
            match &built[k] {
                Ok(b) => bundles.push(share(b)),
                Err(cause) => {
                    let id = insts[k].id.clone();
                    let cause = cause.clone();
                    proof {
                        assert(first_build_failure(built@, k as int));
                        assert(!all_built(built@));
                    }
                    return Err(ConfigError::Build { id, cause });
                },
            }
            k = k + 1;
        }
        assert(all_built(built@));
        let mut next_instances = instance_table_new();
        let mut next_by_agent = agent_table_new();
        let mut next_shared: Vec<String> = Vec::new();
        proof {
            assert(declared_ids(insts@.take(0)) =~= Set::empty());
            assert(declared_agents(insts@.take(0)) =~= Set::empty());
            assert(instance_entries(next_instances).dom() =~= Set::empty());
            assert(agent_entries(next_by_agent).dom() =~= Set::empty());
            assert(next_shared.deep_view() =~= shared_ids(insts@.take(0)));
        }
        let mut i: usize = 0;
        while i < n
            invariant
                i <= n,
                n == insts@.len(),
                n == built@.len(),
                n == bundles@.len(),
                insts@ == file.instances@,
                forall|j: int| 0 <= j < n ==> #[trigger] bundles@[j] == built@[j]->Ok_0,
                config_valid(insts@),
                tables_consistent(
                    instance_entries(next_instances),
                    agent_entries(next_by_agent),
                    next_shared.deep_view(),
                ),
                instance_entries(next_instances).dom() == declared_ids(insts@.take(i as int)),
                forall|j: int|
                    0 <= j < i ==> instance_entries(next_instances)[#[trigger] insts@[j].id@]
                        == built@[j]->Ok_0,
                agent_entries(next_by_agent).dom() == declared_agents(insts@.take(i as int)),
                forall|a: Seq<char>|
                    #[trigger] declared_agents(insts@.take(i as int)).contains(a) ==> agent_entries(
                        next_by_agent,
                    )[a] == ids_for_agent(insts@.take(i as int), a),
                next_shared.deep_view() == shared_ids(insts@.take(i as int)),
            decreases n - i,
        {
            let inst = &insts[i];
            let id = inst.id.clone();
            let bundle = share(&bundles[i]);
            let ghost prefix = insts@.take(i as int);
            let ghost next = insts@.take(i + 1);
            proof {
                assert(next.drop_last() =~= prefix);
                assert(next.last() == insts@[i as int]);
                assert forall|j: int| 0 <= j < i implies insts@[j].id@ != id@ by {
                    lemma_valid_ids_distinct(insts@, j, i as int);
                }
            }
            let ghost old_instances = instance_entries(next_instances);
            instance_table_insert(&mut next_instances, id.clone(), bundle);
            proof {
                assert(instance_entries(next_instances).dom() =~= declared_ids(next)) by {
                    assert forall|key: Seq<char>| #[trigger] declared_ids(next).contains(key)
                        implies instance_entries(next_instances).dom().contains(key) by {
                        let j = choose|j: int| 0 <= j < next.len() && #[trigger] next[j].id@ == key;
                        if j < i {
                            assert(prefix[j].id@ == key);
                            assert(declared_ids(prefix).contains(key));
                        }
                    }
                    assert forall|key: Seq<char>|
                        instance_entries(next_instances).dom().contains(key) implies #[trigger] declared_ids(next).contains(key) by {
                        if key == id@ {
                            assert(next[i as int].id@ == key);
                        } else {
                            assert(old_instances.dom().contains(key));
                            assert(declared_ids(prefix).contains(key));
                            let j = choose|j: int| 0 <= j < prefix.len() && #[trigger] prefix[j].id@ == key;
                            assert(next[j].id@ == key);
                        }
                    }
                }
            }
            match &inst.agent_id {
                Some(agent) => {
                    let ghost old_agents = agent_entries(next_by_agent);
                    let mut list = match agent_table_get(&next_by_agent, agent.as_str()) {
                        Some(v) => v,
                        None => Vec::new(),
                    };
                    let ghost before = list.deep_view();
                    list.push(id.clone());
                    proof {
                        assert(list.deep_view() =~= before.push(id@));
                    }
                    agent_table_insert(&mut next_by_agent, agent.clone(), list);
                    proof {
                        assert(private_to(next.last(), agent@));
                        assert(agent_entries(next_by_agent).dom() =~= declared_agents(next)) by {
                            assert forall|b: Seq<char>| #[trigger] declared_agents(next).contains(b)
                                implies agent_entries(next_by_agent).dom().contains(b) by {
                                let j = choose|j: int| 0 <= j < next.len() && #[trigger] private_to(next[j], b);
                                if j < i {
                                    assert(private_to(prefix[j], b));
                                    assert(declared_agents(prefix).contains(b));
                                }
                            }
                            assert forall|b: Seq<char>|
                                agent_entries(next_by_agent).dom().contains(b) implies #[trigger] declared_agents(next).contains(b) by {
                                if b == agent@ {
                                    assert(private_to(next[i as int], b));
                                } else {
                                    assert(declared_agents(prefix).contains(b));
                                    let j = choose|j: int| 0 <= j < prefix.len() && #[trigger] private_to(prefix[j], b);
                                    assert(private_to(next[j], b));
                                }
                            }
                        }
                        assert forall|b: Seq<char>| #[trigger] declared_agents(next).contains(b)
                            implies agent_entries(next_by_agent)[b] == ids_for_agent(next, b) by {
                            if b == agent@ {
                                if declared_agents(prefix).contains(b) {
                                    assert(old_agents.contains_key(b));
                                } else {
                                    assert(!old_agents.contains_key(b));
                                    assert forall|j: int| 0 <= j < prefix.len() implies !#[trigger] private_to(prefix[j], b) by {
                                        if private_to(prefix[j], b) {
                                            assert(declared_agents(prefix).contains(b));
                                        }
                                    }
                                    lemma_no_private_ids(prefix, b);
                                }
                            } else {
                                assert(!private_to(next.last(), b));
                                assert(declared_agents(prefix).contains(b)) by {
                                    let j = choose|j: int| 0 <= j < next.len() && #[trigger] private_to(next[j], b);
                                    assert(j != i);
                                    assert(private_to(prefix[j], b));
                                }
                            }
                        }
                        assert(shared_ids(next) == shared_ids(prefix));
                    }
                },
                None => {
                    let ghost before = next_shared.deep_view();
                    next_shared.push(id.clone());
                    proof {
                        assert(next_shared.deep_view() =~= before.push(id@));
                        assert(declared_agents(next) =~= declared_agents(prefix)) by {
                            assert forall|b: Seq<char>| #[trigger] declared_agents(next).contains(b)
                                implies declared_agents(prefix).contains(b) by {
                                let j = choose|j: int| 0 <= j < next.len() && #[trigger] private_to(next[j], b);
                                assert(j != i);
                                assert(private_to(prefix[j], b));
                            }
                            assert forall|b: Seq<char>| #[trigger] declared_agents(prefix).contains(b)
                                implies declared_agents(next).contains(b) by {
                                let j = choose|j: int| 0 <= j < prefix.len() && #[trigger] private_to(prefix[j], b);
                                assert(private_to(next[j], b));
                            }
                        }
                        assert forall|b: Seq<char>| #[trigger] declared_agents(next).contains(b)
                            implies agent_entries(next_by_agent)[b] == ids_for_agent(next, b) by {
                            assert(!private_to(next.last(), b));
                        }
                    }
                },
            }
            proof {
                assert forall|j: int| 0 <= j < i + 1 implies instance_entries(next_instances)[#[trigger] insts@[j].id@]
                    == built@[j]->Ok_0 by {
                    if j < i {
                        assert(insts@[j].id@ != id@);
                    }
                }
            }
            i = i + 1;
        }
        proof {
            assert(insts@.take(n as int) =~= insts@);
            assert(built_bundles(built@).len() == n);
        }
        *self = WebSearchPlugin {
            instances: next_instances,
            by_agent: next_by_agent,
            shared: SharedIds::from_ids(next_shared),
        };
        Ok(())
    }

    /// Pick the instance for a call: the explicit `instance` argument, else
    /// the agent's first private instance, else the first shared one.
    pub fn resolve_instance(&self, args: &ToolArgs, agent_id: &str) -> (r: Result<
        String,
        InvokeError,
    >)
        ensures
            match self.resolution(
                match args.instance {
                    Some(x) => Some(x@),
                    None => None,
                },
                agent_id@,
            ) {
                Some(id) => r is Ok && r->Ok_0@ == id,
                None => r is Err && r->Err_0 is NoInstance && r->Err_0->NoInstance_agent_id@
                    == agent_id@,
            },
    {
        if let Some(explicit) = &args.instance {
            return Ok(explicit.clone());
        }
        if let Some(list) = agent_table_get(&self.by_agent, agent_id) {
            if list.len() > 0 {
                proof {
                    assert(list.deep_view()[0] == list@[0]@);
                }
                return Ok(list[0].clone());
            }
        }
        let shared = self.shared.load();
        if shared.len() > 0 {
            proof {
                assert(shared.deep_view()[0] == shared@[0]@);
            }
            return Ok(shared[0].clone());
        }
        Err(InvokeError::NoInstance { agent_id: agent_id.to_string() })
    }
}

impl Default for WebSearchPlugin {
    /// A plugin with nothing configured.
    fn default() -> (r: Self)
        ensures
            r.instance_map().dom().is_empty(),
            r.agent_map().dom().is_empty(),
            r.shared_seq().len() == 0,
    {
        WebSearchPlugin::new()
    }
}

} // verus!
