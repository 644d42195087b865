//! Admin RPCs under `nexo/admin/web_search/` and the metrics scrape:
//! which command a request names, and what each command reports about
//! the plugin's state.
use std::sync::Arc;
use vstd::prelude::*;

use crate::backend::router_provider_ids;
use crate::plugin::WebSearchPlugin;
use crate::tables::{agent_table_entries, instance_table_keys};
use crate::text::{concat2, seq_lt, sort_distinct, str_eq, strictly_sorted};

verus! {

/// The admin command a request names.
#[derive(Debug, Clone)]
pub enum AdminRequest {
    BotInfo,
    CacheStats { instance: Option<String> },
    CacheClear { instance: Option<String> },
    ProviderStatus,
    ListInstances,
    Unknown { method: String },
}

pub open spec fn admin_request_for(method: Seq<char>, instance: Option<String>) -> AdminRequest {
    if method == "nexo/admin/web_search/bot_info"@ {
        AdminRequest::BotInfo
    } else if method == "nexo/admin/web_search/cache_stats"@ {
        AdminRequest::CacheStats { instance }
    } else if method == "nexo/admin/web_search/cache_clear"@ {
        AdminRequest::CacheClear { instance }
    } else if method == "nexo/admin/web_search/provider_status"@ {
        AdminRequest::ProviderStatus
    } else if method == "nexo/admin/web_search/list_instances"@ {
        AdminRequest::ListInstances
    } else {
        AdminRequest::Unknown { method: arbitrary() }
    }
}

impl AdminRequest {
    /// Which command a request's `method` names; `instance` is the
    /// request's `params.instance` string, used by the cache commands.
    pub fn from_method(method: &str, instance: Option<String>) -> (r: AdminRequest)
        ensures
            match r {
                AdminRequest::Unknown { method: m } => m@ == method@ && admin_request_for(
                    method@,
                    instance,
                ) is Unknown,
                _ => r == admin_request_for(method@, instance),
            },
    {
        if str_eq(method, "nexo/admin/web_search/bot_info") {
            AdminRequest::BotInfo
        } else if str_eq(method, "nexo/admin/web_search/cache_stats") {
            AdminRequest::CacheStats { instance }
        } else if str_eq(method, "nexo/admin/web_search/cache_clear") {
            AdminRequest::CacheClear { instance }
        } else if str_eq(method, "nexo/admin/web_search/provider_status") {
            AdminRequest::ProviderStatus
        } else if str_eq(method, "nexo/admin/web_search/list_instances") {
            AdminRequest::ListInstances
        } else {
            AdminRequest::Unknown { method: method.to_string() }
        }
    }
}

/// The reply to a request for an unknown command.
pub fn unknown_method_error(method: &str) -> (r: String)
    ensures
        r@ == "unknown admin method: "@ + method@,
{
    concat2("unknown admin method: ", method)
}

/// The reply to any admin request before the plugin has booted.
pub const NOT_BOOTED: &'static str = "web_search plugin not yet booted";

/// `bot_info`: what the plugin is and how much is configured.
#[derive(Debug, Clone)]
pub struct BotInfo {
    pub plugin: String,
    pub configured_instances: usize,
    pub configured_agents: usize,
    pub shared_instances: usize,
}

/// The breaker state of one provider of one instance.
#[derive(Debug, Clone)]
pub struct ProviderStatus {
    pub id: String,
    pub available: bool,
}

/// `provider_status` for one instance.
#[derive(Debug)]
pub struct InstanceProviders {
    pub instance: String,
    pub providers: Vec<ProviderStatus>,
}

/// `list_instances`: every instance id in increasing order, each agent's
/// private list, and the shared list.
#[derive(Debug)]
pub struct InstanceListing {
    pub instances: Vec<String>,
    pub by_agent: Vec<(String, Vec<String>)>,
    pub shared: Vec<String>,
}

/// Where an instance's cache stands for the cache commands.
pub enum CacheProbe {
    /// No instance has this id.
    NotConfigured,
    /// The instance runs without a cache.
    Disabled,
    /// The instance's cache.
    Enabled(Arc<nexo_web_search::WebSearchCache>),
}

/// The provider ids that a list of breaker states names.
pub open spec fn provider_ids(s: Seq<ProviderStatus>) -> Set<Seq<char>> {
    Set::new(|k: Seq<char>| exists|a: int| 0 <= a < s.len() && #[trigger] s[a].id@ == k)
}

/// `WebSearchRouter::provider_states`: one entry for each provider the
/// router holds (one per key of its provider map), with whether its
/// circuit breaker lets calls through; the source sorts the list by
/// provider id. Availability depends on recent failures and the time,
/// so nothing is stated of it.
#[verifier::external_body]
fn router_provider_states(router: &nexo_web_search::WebSearchRouter) -> (r: Vec<ProviderStatus>)
    ensures
        provider_ids(r@) == router_provider_ids(*router),
        forall|i: int, j: int| 0 <= i < j < r@.len() ==> seq_lt(#[trigger] r@[i].id@, #[trigger] r@[j].id@),
{
    router.provider_states().into_iter().map(|s| ProviderStatus { id: s.id, available: s.available }).collect()
}

/// `nexo_web_search::telemetry::render`: the process-wide Prometheus
/// exposition block of the search metrics. It reads process-wide
/// counters, so nothing is stated of it.
#[verifier::external_body]
fn render_telemetry() -> String {
    let mut out = String::new();
    nexo_web_search::telemetry::render(&mut out);
    out
}

/// The reply to a metrics scrape.
#[derive(Debug)]
pub struct MetricsReply {
    pub ok: bool,
    pub body: String,
}

/// The reply to a metrics scrape that rendered `body`.
pub fn metrics_reply(body: String) -> (r: MetricsReply)
    ensures
        r.ok,
        r.body == body,
{
    MetricsReply { ok: true, body }
}

/// `plugin.web_search.metrics.scrape`: the Prometheus exposition text of
/// the search metrics (see `metrics_reply`), always with `ok`.
pub fn metrics_scrape() -> (r: MetricsReply)
    ensures
        r.ok,
{
    metrics_reply(render_telemetry())
}

/// The two cache commands.
#[derive(Debug, Clone, Copy, PartialEq, Eq)]
pub enum CacheCommand {
    Stats,
    Clear,
}

/// How a cache command went for one instance.
#[derive(Debug, Clone)]
pub enum CacheOutcome {
    /// No instance has this id.
    NotConfigured,
    /// The instance runs without a cache.
    Disabled,
    /// The cache answered: its entry count, or the rows it deleted.
    Counted(u64),
    /// The cache failed, with the error's text.
    Failed(String),
}

/// One instance's row in a cache command's reply; absent fields are left
/// out of the reply.
#[derive(Debug, Clone)]
pub struct CacheRow {
    pub instance: String,
    pub ok: bool,
    pub error: Option<String>,
    pub cache_enabled: Option<bool>,
    pub entries: Option<u64>,
    pub rows_deleted: Option<u64>,
}

/// `r` is the row a cache command reports for `instance` after
/// `outcome`: an unknown instance fails with `instance not configured`;
/// an instance without a cache succeeds with `cache_enabled: false` (and,
/// for clear, no rows deleted); otherwise the cache's count (entries for
/// stats, rows deleted for clear) or its error.
pub open spec fn cache_row_is(
    r: CacheRow,
    command: CacheCommand,
    instance: Seq<char>,
    outcome: CacheOutcome,
) -> bool {
    &&& r.instance@ == instance
    &&& match outcome {
        CacheOutcome::NotConfigured => !r.ok && r.error is Some && r.error->0@
            == "instance not configured"@ && r.cache_enabled is None && r.entries is None
            && r.rows_deleted is None,
        CacheOutcome::Disabled => r.ok && r.error is None && r.cache_enabled == Some(false)
            && r.entries is None && r.rows_deleted == (if command == CacheCommand::Clear {
            Some(0u64)
        } else {
            None
        }),
        CacheOutcome::Counted(n) => r.ok && r.error is None && r.cache_enabled is None
            && r.entries == (if command == CacheCommand::Stats {
            Some(n)
        } else {
            None
        }) && r.rows_deleted == (if command == CacheCommand::Clear {
            Some(n)
        } else {
            None
        }),
        CacheOutcome::Failed(e) => !r.ok && r.error is Some && r.error->0@ == e@
            && r.cache_enabled is None && r.entries is None && r.rows_deleted is None,
    }
}

/// The row a cache command reports for an instance: an unknown instance
/// fails with `instance not configured`; an instance without a cache
/// succeeds with `cache_enabled: false` (and, for clear, no rows
/// deleted); otherwise the cache's count or its error.
pub fn cache_row(command: CacheCommand, instance: String, outcome: CacheOutcome) -> (r: CacheRow)
    ensures
        cache_row_is(r, command, instance@, outcome),
{
    match outcome {
        CacheOutcome::NotConfigured => CacheRow {
            instance,
            ok: false,
            error: Some(String::from_str("instance not configured")),
            cache_enabled: None,
            entries: None,
            rows_deleted: None,
        },
        CacheOutcome::Disabled => CacheRow {
            instance,
            ok: true,
            error: None,
            cache_enabled: Some(false),
            entries: None,
            rows_deleted: match command {
                CacheCommand::Clear => Some(0),
                CacheCommand::Stats => None,
            },
        },
        CacheOutcome::Counted(n) => CacheRow {
            instance,
            ok: true,
            error: None,
            cache_enabled: None,
            entries: match command {
                CacheCommand::Stats => Some(n),
                CacheCommand::Clear => None,
            },
            rows_deleted: match command {
                CacheCommand::Clear => Some(n),
                CacheCommand::Stats => None,
            },
        },
        CacheOutcome::Failed(e) => CacheRow {
            instance,
            ok: false,
            error: Some(e),
            cache_enabled: None,
            entries: None,
            rows_deleted: None,
        },
    }
}

/// How a cache command went for a target: what the probe found, and for
/// an instance with a cache, the cache's answer (a count or an error).
pub open spec fn outcome_of(probe: CacheProbe, answer: Option<Result<u64, String>>) -> CacheOutcome {
    match probe {
        CacheProbe::NotConfigured => CacheOutcome::NotConfigured,
        CacheProbe::Disabled => CacheOutcome::Disabled,
        CacheProbe::Enabled(_) => match answer {
            Some(Ok(n)) => CacheOutcome::Counted(n),
            Some(Err(e)) => CacheOutcome::Failed(e),
            None => CacheOutcome::NotConfigured,
        },
    }
}

/// The rows of a cache command's reply, one per target in the targets'
/// order (see `WebSearchPlugin::cache_targets`): `answers[k]` is the
/// answer of target `k`'s cache, present exactly for targets with a
/// cache.
pub fn cache_rows(
    command: CacheCommand,
    targets: &Vec<(String, CacheProbe)>,
    answers: Vec<Option<Result<u64, String>>>,
) -> (r: Vec<CacheRow>)
    requires
        answers@.len() == targets@.len(),
        forall|k: int|
            0 <= k < targets@.len() ==> (#[trigger] targets@[k].1 is Enabled <==> answers@[k] is Some),
    ensures
        r@.len() == targets@.len(),
        forall|k: int|
            0 <= k < r@.len() ==> cache_row_is(
                #[trigger] r@[k],
                command,
                targets@[k].0@,
                outcome_of(targets@[k].1, answers@[k]),
            ),
{
    let mut out: Vec<CacheRow> = Vec::new();
    let mut k: usize = 0;
    while k < targets.len()
        invariant
            k <= targets@.len(),
            answers@.len() == targets@.len(),
            out@.len() == k,
            forall|j: int|
                0 <= j < targets@.len() ==> (#[trigger] targets@[j].1 is Enabled <==> answers@[j] is Some),
            forall|j: int|
                0 <= j < k ==> cache_row_is(
                    #[trigger] out@[j],
                    command,
                    targets@[j].0@,
                    outcome_of(targets@[j].1, answers@[j]),
                ),
        decreases targets@.len() - k,
    {
        let outcome = match &targets[k].1 {
            CacheProbe::NotConfigured => CacheOutcome::NotConfigured,
            CacheProbe::Disabled => CacheOutcome::Disabled,
            CacheProbe::Enabled(_) => match &answers[k] {
                Some(Ok(n)) => CacheOutcome::Counted(*n),
                Some(Err(e)) => CacheOutcome::Failed(e.clone()),
                None => CacheOutcome::NotConfigured,
            },
        };
        proof {
            assert(match outcome {
                CacheOutcome::Failed(e) => outcome_of(targets@[k as int].1, answers@[k as int]) is Failed
                    && outcome_of(targets@[k as int].1, answers@[k as int])->Failed_0@ == e@,
                _ => outcome == outcome_of(targets@[k as int].1, answers@[k as int]),
            });
        }
        out.push(cache_row(command, targets[k].0.clone(), outcome));
        k = k + 1;
    }
    out
}

/// The `provider_status` rows: each target instance in order with the
/// breaker states read from its router, passed on as read.
pub fn provider_rows(
    targets: &Vec<(String, Arc<nexo_web_search::WebSearchRouter>)>,
    states: Vec<Vec<ProviderStatus>>,
) -> (r: Vec<InstanceProviders>)
    requires
        states@.len() == targets@.len(),
    ensures
        r@.len() == targets@.len(),
        forall|k: int|
            0 <= k < r@.len() ==> (#[trigger] r@[k]).instance@ == targets@[k].0@ && r@[k].providers
                == states@[k],
{
    let ghost all = states@;
    let mut rest = states;
    let mut out: Vec<InstanceProviders> = Vec::new();
    let mut k: usize = 0;
    while k < targets.len()
        invariant
            k <= targets@.len(),
            all.len() == targets@.len(),
            out@.len() == k,
            rest@ == all.subrange(k as int, all.len() as int),
            forall|j: int|
                0 <= j < k ==> (#[trigger] out@[j]).instance@ == targets@[j].0@ && out@[j].providers
                    == all[j],
        decreases targets@.len() - k,
    {
        let providers = rest.remove(0);
        out.push(InstanceProviders { instance: targets[k].0.clone(), providers });
        k = k + 1;
    }
    out
}

impl WebSearchPlugin {
    /// `bot_info`.
    pub fn bot_info(&self) -> (r: BotInfo)
        ensures
            r.plugin@ == "web_search"@,
            r.configured_instances == self.instance_map().len(),
            r.configured_agents == self.agent_map().len(),
            r.shared_instances == self.shared_seq().len(),
    {
        BotInfo {
            plugin: String::from_str("web_search"),
            configured_instances: self.instance_count(),
            configured_agents: self.agent_count(),
            shared_instances: self.shared_count(),
        }
    }

    /// Where the cache of an instance stands.
    pub fn cache_probe(&self, instance_id: &str) -> (r: CacheProbe)
        ensures
            match r {
                CacheProbe::NotConfigured => !self.instance_map().contains_key(instance_id@),
                CacheProbe::Disabled => self.instance_map().contains_key(instance_id@)
                    && self.instance_map()[instance_id@].cache is None,
                CacheProbe::Enabled(c) => self.instance_map().contains_key(instance_id@)
                    && self.instance_map()[instance_id@].cache == Some(c),
            },
    {
        match self.bundle_for(instance_id) {
            None => CacheProbe::NotConfigured,
            Some(bundle) => match &bundle.cache {
                Some(c) => CacheProbe::Enabled(crate::backend::share(c)),
                None => CacheProbe::Disabled,
            },
        }
    }

    /// The instances a cache command covers, each with where its cache
    /// stands: the named one, or every configured instance (in the
    /// table's walk order) when none is named.
    pub fn cache_targets(&self, instance: Option<&str>) -> (r: Vec<(String, CacheProbe)>)
        ensures
            match instance {
                Some(name) => r@.len() == 1 && r@[0].0@ == name@,
                None => r@.len() == self.instance_map().len() && (forall|i: int, j: int|
                    0 <= i < j < r@.len() ==> r@[i].0@ != r@[j].0@) && (forall|i: int|
                    0 <= i < r@.len() ==> self.instance_map().contains_key(#[trigger] r@[i].0@))
                    && (forall|k: Seq<char>|
                    self.instance_map().contains_key(k) ==> exists|i: int|
                        0 <= i < r@.len() && #[trigger] r@[i].0@ == k),
            },
            forall|i: int|
                0 <= i < r@.len() ==> match #[trigger] r@[i].1 {
                    CacheProbe::NotConfigured => !self.instance_map().contains_key(r@[i].0@),
                    CacheProbe::Disabled => self.instance_map().contains_key(r@[i].0@)
                        && self.instance_map()[r@[i].0@].cache is None,
                    CacheProbe::Enabled(c) => self.instance_map().contains_key(r@[i].0@)
                        && self.instance_map()[r@[i].0@].cache == Some(c),
                },
    {
        let ids: Vec<String> = match instance {
            Some(name) => {
                let mut v: Vec<String> = Vec::new();
                v.push(name.to_string());
                v
            },
            None => instance_table_keys(self.instances_table()),
        };
        let mut out: Vec<(String, CacheProbe)> = Vec::new();
        let mut i: usize = 0;
        while i < ids.len()
            invariant
                i <= ids@.len(),
                out@.len() == i,
                forall|m: int| 0 <= m < i ==> #[trigger] out@[m].0@ == ids@[m]@,
                forall|m: int|
                    0 <= m < i ==> match #[trigger] out@[m].1 {
                        CacheProbe::NotConfigured => !self.instance_map().contains_key(
                            out@[m].0@,
                        ),
                        CacheProbe::Disabled => self.instance_map().contains_key(out@[m].0@)
                            && self.instance_map()[out@[m].0@].cache is None,
                        CacheProbe::Enabled(c) => self.instance_map().contains_key(out@[m].0@)
                            && self.instance_map()[out@[m].0@].cache == Some(c),
                    },
            decreases ids@.len() - i,
        {
            let id = ids[i].clone();
            let probe = self.cache_probe(id.as_str());
            out.push((id, probe));
            i = i + 1;
        }
        proof {
            assert forall|k: Seq<char>|
                instance is None && self.instance_map().contains_key(k) implies exists|i: int|
                    0 <= i < out@.len() && #[trigger] out@[i].0@ == k by {
                let i = choose|i: int| 0 <= i < ids@.len() && #[trigger] ids@[i]@ == k;
                assert(out@[i].0@ == k);
            }
        }
        out
    }

    /// The routers whose breaker state `provider_status` reports: every
    /// configured instance (in the table's walk order), each with its own
    /// router.
    pub fn provider_targets(&self) -> (r: Vec<(String, Arc<nexo_web_search::WebSearchRouter>)>)
        ensures
            r@.len() == self.instance_map().len(),
            forall|i: int, j: int| 0 <= i < j < r@.len() ==> r@[i].0@ != r@[j].0@,
            forall|i: int|
                0 <= i < r@.len() ==> self.instance_map().contains_key(#[trigger] r@[i].0@)
                    && r@[i].1 == self.instance_map()[r@[i].0@].router,
            forall|k: Seq<char>|
                self.instance_map().contains_key(k) ==> exists|i: int|
                    0 <= i < r@.len() && #[trigger] r@[i].0@ == k,
    {
        let ids = instance_table_keys(self.instances_table());
        let mut out: Vec<(String, Arc<nexo_web_search::WebSearchRouter>)> = Vec::new();
        let mut i: usize = 0;
        while i < ids.len()
            invariant
                i <= ids@.len(),
                out@.len() == i,
                forall|m: int| 0 <= m < i ==> #[trigger] out@[m].0@ == ids@[m]@,
                forall|m: int|
                    0 <= m < ids@.len() ==> self.instance_map().contains_key(#[trigger] ids@[m]@),
                forall|m: int|
                    0 <= m < i ==> #[trigger] out@[m].1 == self.instance_map()[out@[m].0@].router,
            decreases ids@.len() - i,
        {
            let id = ids[i].clone();
            match self.router_for(id.as_str()) {
                Ok(router) => {
                    out.push((id, router));
                },
                Err(_) => {
                    proof {
                        assert(self.instance_map().contains_key(ids@[i as int]@));
                    }
                },
            }
            i = i + 1;
        }
        proof {
            assert forall|k: Seq<char>| self.instance_map().contains_key(k) implies exists|i: int|
                0 <= i < out@.len() && #[trigger] out@[i].0@ == k by {
                let i = choose|i: int| 0 <= i < ids@.len() && #[trigger] ids@[i]@ == k;
                assert(out@[i].0@ == k);
            }
        }
        out
    }

    /// `provider_status`: every configured instance (in the table's walk
    /// order) with its providers' breaker state, read from that
    /// instance's own router: each row names exactly the providers of
    /// that router, sorted by id.
    pub fn admin_provider_status(&self) -> (r: Vec<InstanceProviders>)
        ensures
            r@.len() == self.instance_map().len(),
            forall|i: int, j: int| 0 <= i < j < r@.len() ==> r@[i].instance@ != r@[j].instance@,
            forall|i: int|
                0 <= i < r@.len() ==> self.instance_map().contains_key(#[trigger] r@[i].instance@),
            forall|k: Seq<char>|
                self.instance_map().contains_key(k) ==> exists|i: int|
                    0 <= i < r@.len() && #[trigger] r@[i].instance@ == k,
            forall|i: int, a: int, b: int|
                0 <= i < r@.len() && 0 <= a < b < r@[i].providers@.len() ==> seq_lt(
                    #[trigger] r@[i].providers@[a].id@,
                    #[trigger] r@[i].providers@[b].id@,
                ),
            forall|i: int|
                0 <= i < r@.len() ==> #[trigger] provider_ids(r@[i].providers@) == router_provider_ids(
                    *self.instance_map()[r@[i].instance@].router,
                ),
    {
        let targets = self.provider_targets();
        let mut states: Vec<Vec<ProviderStatus>> = Vec::new();
        let mut i: usize = 0;
        while i < targets.len()
            invariant
                i <= targets@.len(),
                states@.len() == i,
                forall|m: int|
                    0 <= m < targets@.len() ==> self.instance_map().contains_key(
                        #[trigger] targets@[m].0@,
                    ) && targets@[m].1 == self.instance_map()[targets@[m].0@].router,
                forall|m: int|
                    0 <= m < i ==> #[trigger] provider_ids(states@[m]@) == router_provider_ids(
                        *targets@[m].1,
                    ),
                forall|m: int, a: int, b: int|
                    0 <= m < i && 0 <= a < b < states@[m]@.len() ==> seq_lt(
                        #[trigger] states@[m]@[a].id@,
                        #[trigger] states@[m]@[b].id@,
                    ),
            decreases targets@.len() - i,
        {
            states.push(router_provider_states(&targets[i].1));
            i = i + 1;
        }
        let ghost st = states@;
        let out = provider_rows(&targets, states);
        proof {
            assert forall|i: int, a: int, b: int|
                0 <= i < out@.len() && 0 <= a < b < out@[i].providers@.len() implies seq_lt(
                #[trigger] out@[i].providers@[a].id@,
                #[trigger] out@[i].providers@[b].id@,
            ) by {
                assert(out@[i].providers == st[i]);
            }
            assert forall|k: Seq<char>| self.instance_map().contains_key(k) implies exists|i: int|
                0 <= i < out@.len() && #[trigger] out@[i].instance@ == k by {
                let i = choose|i: int| 0 <= i < targets@.len() && #[trigger] targets@[i].0@ == k;
                assert(out@[i].instance@ == k);
            }
        }
        out
    }

    /// `list_instances`: the instance ids in increasing order, each
    /// agent's private list (in the table's walk order), and the shared
    /// list.
    pub fn admin_list_instances(&self) -> (r: InstanceListing)
        ensures
            r.instances@.len() == self.instance_map().len(),
            strictly_sorted(r.instances.deep_view()),
            forall|k: Seq<char>|
                self.instance_map().contains_key(k) <==> r.instances.deep_view().contains(k),
            r.by_agent@.len() == self.agent_map().len(),
            forall|i: int, j: int| 0 <= i < j < r.by_agent@.len() ==> r.by_agent@[i].0@ != r.by_agent@[j].0@,
            forall|i: int|
                0 <= i < r.by_agent@.len() ==> self.agent_map().contains_key(#[trigger] r.by_agent@[i].0@)
                    && self.agent_map()[r.by_agent@[i].0@] == r.by_agent@[i].1.deep_view(),
            forall|k: Seq<char>|
                self.agent_map().contains_key(k) ==> exists|i: int|
                    0 <= i < r.by_agent@.len() && #[trigger] r.by_agent@[i].0@ == k,
            r.shared.deep_view() == self.shared_seq(),
    {
        let keys = instance_table_keys(self.instances_table());
        let ghost kv = keys.deep_view();
        let instances = sort_distinct(keys);
        proof {
            assert forall|k: Seq<char>|
                self.instance_map().contains_key(k) <==> instances.deep_view().contains(k) by {
                if self.instance_map().contains_key(k) {
                    let i = choose|i: int| 0 <= i < kv.len() && #[trigger] kv[i] == k;
                    assert(instances.deep_view().contains(kv[i]));
                }
                if instances.deep_view().contains(k) {
                    let i = choose|i: int| 0 <= i < instances@.len() && #[trigger] instances.deep_view()[i] == k;
                    assert(kv.contains(instances@[i]@));
                    let j = choose|j: int| 0 <= j < kv.len() && #[trigger] kv[j] == k;
                    assert(self.instance_map().contains_key(kv[j]));
                }
            }
        }
        InstanceListing {
            instances,
            by_agent: agent_table_entries(self.agents_table()),
            shared: self.shared_ids_now(),
        }
    }
}

} // verus!
