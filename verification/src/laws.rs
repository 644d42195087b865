//! Properties of the plugin as a whole: what configuring leaves behind,
//! which profile a call lands on, and how failures are reported.
use std::sync::Arc;
use vstd::prelude::*;

use crate::admin::{admin_request_for, cache_row_is, AdminRequest, CacheCommand, CacheOutcome, CacheRow};
use crate::backend::InstanceState;
use crate::config::{
    cache_claim, cache_collision_at, config_valid, conflict_at, duplicate_id_at,
    lemma_valid_ids_distinct, WebSearchInstance,
};
use crate::config::ProvidersConfig;
use crate::instance_plan::{cache_plan, plans_provider, provider_order, provider_plan, ProviderSpec};
use crate::invoke::{
    attempts_for, error_kind_of, policy_disables, provider_pick, with_policy_defaults,
    BindingPolicy, InvokeError, SearchArgs, ToolErrorKind,
};
use crate::plugin::{
    declared_agents, declared_ids, ids_for_agent, private_to, shared_ids,
    WebSearchPlugin,
};
use crate::text::{occurs_at, path_eq, seq_contains};

verus! {

proof fn lemma_first_private(insts: Seq<WebSearchInstance>, a: Seq<char>, i: int)
    requires
        0 <= i < insts.len(),
        private_to(insts[i], a),
        forall|j: int| 0 <= j < i ==> !#[trigger] private_to(insts[j], a),
    ensures
        ids_for_agent(insts, a).len() > 0,
        ids_for_agent(insts, a)[0] == insts[i].id@,
    decreases insts.len(),
{
    let prev = insts.drop_last();
    if i < insts.len() - 1 {
        lemma_first_private(prev, a, i);
    } else {
        assert forall|j: int| 0 <= j < prev.len() implies !#[trigger] private_to(prev[j], a) by {
            assert(prev[j] == insts[j]);
        }
        crate::plugin::lemma_no_private_ids(prev, a);
    }
}

proof fn lemma_first_shared(insts: Seq<WebSearchInstance>, i: int)
    requires
        0 <= i < insts.len(),
        insts[i].agent_id is None,
        forall|j: int| 0 <= j < i ==> #[trigger] insts[j].agent_id is Some,
    ensures
        shared_ids(insts).len() > 0,
        shared_ids(insts)[0] == insts[i].id@,
    decreases insts.len(),
{
    let prev = insts.drop_last();
    if i < insts.len() - 1 {
        lemma_first_shared(prev, i);
    } else {
        lemma_no_shared(prev);
    }
}

proof fn lemma_no_shared(insts: Seq<WebSearchInstance>)
    requires
        forall|j: int| 0 <= j < insts.len() ==> #[trigger] insts[j].agent_id is Some,
    ensures
        shared_ids(insts).len() == 0,
    decreases insts.len(),
{
    if insts.len() > 0 {
        lemma_no_shared(insts.drop_last());
        assert(insts[insts.len() - 1].agent_id is Some);
    }
}

/// An agent's default profile is the first instance declared private to
/// it: after configuring, a call from that agent without an explicit
/// `instance` resolves to that instance.
pub proof fn law_default_profile_is_first_declared(
    p: &WebSearchPlugin,
    insts: Seq<WebSearchInstance>,
    bundles: Seq<Arc<InstanceState>>,
    a: Seq<char>,
    i: int,
)
    requires
        p.configured_as(insts, bundles),
        0 <= i < insts.len(),
        private_to(insts[i], a),
        forall|j: int| 0 <= j < i ==> !#[trigger] private_to(insts[j], a),
    ensures
        p.resolution(None, a) == Some(insts[i].id@),
{
    lemma_first_private(insts, a, i);
    assert(declared_agents(insts).contains(a));
}

/// An agent without a private profile falls back to the first shared
/// instance declared.
pub proof fn law_shared_fallback_is_first_declared(
    p: &WebSearchPlugin,
    insts: Seq<WebSearchInstance>,
    bundles: Seq<Arc<InstanceState>>,
    a: Seq<char>,
    i: int,
)
    requires
        p.configured_as(insts, bundles),
        forall|j: int| 0 <= j < insts.len() ==> !#[trigger] private_to(insts[j], a),
        0 <= i < insts.len(),
        insts[i].agent_id is None,
        forall|j: int| 0 <= j < i ==> #[trigger] insts[j].agent_id is Some,
    ensures
        p.resolution(None, a) == Some(insts[i].id@),
{
    lemma_first_shared(insts, i);
    assert(!declared_agents(insts).contains(a));
}

/// An agent with neither a private nor a shared instance gets nothing.
pub proof fn law_no_profile_resolves_nothing(
    p: &WebSearchPlugin,
    insts: Seq<WebSearchInstance>,
    bundles: Seq<Arc<InstanceState>>,
    a: Seq<char>,
)
    requires
        p.configured_as(insts, bundles),
        forall|j: int| 0 <= j < insts.len() ==> !#[trigger] private_to(insts[j], a),
        forall|j: int| 0 <= j < insts.len() ==> #[trigger] insts[j].agent_id is Some,
    ensures
        p.resolution(None, a) is None,
{
    lemma_no_shared(insts);
    assert(!declared_agents(insts).contains(a));
}

/// A call without an explicit `instance` always lands on a configured
/// instance when it lands anywhere: profiles never name an instance the
/// plugin does not hold.
pub proof fn law_profile_resolution_is_configured(p: &WebSearchPlugin, a: Seq<char>)
    requires
        p.consistent(),
    ensures
        p.resolution(None, a) matches Some(id) ==> p.instance_map().contains_key(id),
{
    WebSearchPlugin::lemma_consistent(p);
    if p.agent_map().contains_key(a) && p.agent_map()[a].len() > 0 {
        assert(p.instance_map().contains_key(p.agent_map()[a][0]));
    } else if p.shared_seq().len() > 0 {
        assert(p.instance_map().contains_key(p.shared_seq()[0]));
    }
}

/// Configuring is a full replace: an instance id that the new file does
/// not declare is gone, whatever was configured before, and every
/// declared id is served by the bundle built for it.
pub proof fn law_full_replace(
    p: &WebSearchPlugin,
    insts: Seq<WebSearchInstance>,
    bundles: Seq<Arc<InstanceState>>,
    id: Seq<char>,
)
    requires
        p.configured_as(insts, bundles),
    ensures
        p.instance_map().contains_key(id) <==> exists|i: int|
            0 <= i < insts.len() && #[trigger] insts[i].id@ == id,
        forall|i: int|
            0 <= i < insts.len() && #[trigger] insts[i].id@ == id ==> p.instance_map()[id]
                == bundles[i],
{
    assert(p.instance_map().contains_key(id) == declared_ids(insts).contains(id));
}

proof fn lemma_declared_ids_count(insts: Seq<WebSearchInstance>)
    requires
        forall|i: int, j: int|
            0 <= i < insts.len() && 0 <= j < insts.len() && i != j ==> insts[i].id@ != insts[j].id@,
    ensures
        declared_ids(insts).finite(),
        declared_ids(insts).len() == insts.len(),
    decreases insts.len(),
{
    if insts.len() == 0 {
        assert(declared_ids(insts) =~= Set::empty());
    } else {
        let prev = insts.drop_last();
        lemma_declared_ids_count(prev);
        let last = insts.last().id@;
        assert(declared_ids(insts) =~= declared_ids(prev).insert(last)) by {
            assert forall|k: Seq<char>| #[trigger] declared_ids(insts).contains(k) implies declared_ids(prev).insert(last).contains(k) by {
                let i = choose|i: int| 0 <= i < insts.len() && #[trigger] insts[i].id@ == k;
                if i < insts.len() - 1 {
                    assert(prev[i].id@ == k);
                }
            }
            assert forall|k: Seq<char>| #[trigger] declared_ids(prev).insert(last).contains(k) implies declared_ids(insts).contains(k) by {
                if k == last {
                    assert(insts[insts.len() - 1].id@ == k);
                } else {
                    let i = choose|i: int| 0 <= i < prev.len() && #[trigger] prev[i].id@ == k;
                    assert(insts[i].id@ == k);
                }
            }
        }
        assert(!declared_ids(prev).contains(last)) by {
            if declared_ids(prev).contains(last) {
                let i = choose|i: int| 0 <= i < prev.len() && #[trigger] prev[i].id@ == last;
                assert(insts[i].id@ == insts[insts.len() - 1].id@);
            }
        }
    }
}

/// One process, one entry per declared profile: after configuring with a
/// valid file, the instance count is the number of instances declared.
pub proof fn law_instance_count_after_configure(
    p: &WebSearchPlugin,
    insts: Seq<WebSearchInstance>,
    bundles: Seq<Arc<InstanceState>>,
)
    requires
        config_valid(insts),
        p.configured_as(insts, bundles),
    ensures
        p.instance_map().len() == insts.len(),
{
    assert forall|i: int, j: int|
        0 <= i < insts.len() && 0 <= j < insts.len() && i != j implies insts[i].id@
        != insts[j].id@ by {
        lemma_valid_ids_distinct(insts, i, j);
    }
    lemma_declared_ids_count(insts);
}

/// Two declared instances clash: they share an id, or both keep their
/// cache on at the same file (the earlier one's path compared with the
/// later one's). A path shared with a disabled cache is no clash.
pub open spec fn instances_clash(earlier: WebSearchInstance, later: WebSearchInstance) -> bool {
    ||| earlier.id@ == later.id@
    ||| {
        &&& earlier.cache.enabled
        &&& later.cache.enabled
        &&& earlier.cache.path is Some
        &&& later.cache.path is Some
        &&& path_eq(earlier.cache.path->0@, later.cache.path->0@)
    }
}

/// Pre-flight accepts a list of instances exactly when no two of them
/// clash: no id is declared twice and no two enabled caches name the
/// same file.
pub proof fn law_valid_iff_no_clash(insts: Seq<WebSearchInstance>)
    ensures
        config_valid(insts) <==> forall|i: int, j: int|
            0 <= i < j < insts.len() ==> !instances_clash(#[trigger] insts[i], #[trigger] insts[j]),
{
    if config_valid(insts) {
        assert forall|i: int, j: int| 0 <= i < j < insts.len() implies !instances_clash(
            #[trigger] insts[i],
            #[trigger] insts[j],
        ) by {
            assert(!conflict_at(insts, j));
            if insts[i].id@ == insts[j].id@ {
                assert(duplicate_id_at(insts, j));
            }
            if insts[i].cache.enabled && insts[j].cache.enabled && insts[i].cache.path is Some
                && insts[j].cache.path is Some && path_eq(
                insts[i].cache.path->0@,
                insts[j].cache.path->0@,
            ) {
                assert(cache_claim(insts[i]) is Some);
                assert(cache_collision_at(insts, j));
            }
        }
    }
    if forall|i: int, j: int|
        0 <= i < j < insts.len() ==> !instances_clash(#[trigger] insts[i], #[trigger] insts[j]) {
        assert forall|j: int| 0 <= j < insts.len() implies !#[trigger] conflict_at(insts, j) by {
            if duplicate_id_at(insts, j) {
                let i = choose|i: int| 0 <= i < j && #[trigger] insts[i].id@ == insts[j].id@;
                assert(instances_clash(insts[i], insts[j]));
            }
            if cache_collision_at(insts, j) {
                let i = choose|i: int|
                    0 <= i < j && #[trigger] cache_claim(insts[i]) is Some && path_eq(
                        cache_claim(insts[i])->0,
                        cache_claim(insts[j])->0,
                    );
                assert(instances_clash(insts[i], insts[j]));
            }
        }
    }
}

/// What configuring leaves depends on the declarations alone: two
/// plugins configured from the same instances, whatever each held
/// before, hold the same instance ids, agent lists and shared list, and
/// resolve every call alike.
pub proof fn law_configured_state_determined(
    p: &WebSearchPlugin,
    q: &WebSearchPlugin,
    insts: Seq<WebSearchInstance>,
    p_bundles: Seq<Arc<InstanceState>>,
    q_bundles: Seq<Arc<InstanceState>>,
)
    requires
        p.configured_as(insts, p_bundles),
        q.configured_as(insts, q_bundles),
    ensures
        p.instance_map().dom() == q.instance_map().dom(),
        p.agent_map() == q.agent_map(),
        p.shared_seq() == q.shared_seq(),
        forall|x: Option<Seq<char>>, a: Seq<char>| #[trigger] p.resolution(x, a) == q.resolution(x, a),
{
    assert(p.agent_map() =~= q.agent_map());
}

/// A character of `sub` that `s` lacks keeps `sub` out of `s`.
proof fn lemma_missing_char(s: Seq<char>, sub: Seq<char>, k: int)
    requires
        0 <= k < sub.len(),
        forall|i: int| 0 <= i < s.len() ==> s[i] != sub[k],
    ensures
        !seq_contains(s, sub),
{
    assert forall|i: int| !#[trigger] occurs_at(s, sub, i) by {
        if occurs_at(s, sub, i) {
            assert(s.subrange(i, i + sub.len())[k] == sub[k]);
        }
    }
}

/// A call for another tool is reported as NotFound.
pub proof fn law_unknown_tool_is_not_found(tool_name: String)
    ensures
        error_kind_of(InvokeError::UnknownTool { tool_name }.message_spec())
            == ToolErrorKind::NotFound,
{
    let msg = InvokeError::UnknownTool { tool_name }.message_spec();
    reveal_strlit("unknown tool `");
    reveal_strlit("unknown tool");
    assert(msg.subrange(0, 12) =~= "unknown tool"@);
    assert(occurs_at(msg, "unknown tool"@, 0));
}

/// A call the binding's policy turns off is reported as Denied.
pub proof fn law_disabled_by_policy_is_denied()
    ensures
        error_kind_of(InvokeError::DisabledByPolicy.message_spec()) == ToolErrorKind::Denied,
{
    let msg = InvokeError::DisabledByPolicy.message_spec();
    reveal_strlit("web_search disabled by policy on this binding");
    reveal_strlit("unknown tool");
    reveal_strlit("disabled by policy");
    lemma_missing_char(msg, "unknown tool"@, 2);
    assert(msg.subrange(11, 29) =~= "disabled by policy"@);
    assert(occurs_at(msg, "disabled by policy"@, 11));
}

/// A call whose instance is not configured is reported as Unavailable,
/// unless the instance id itself carries one of the earlier keywords.
pub proof fn law_unconfigured_instance_is_unavailable(instance_id: String)
    requires
        !seq_contains(
            InvokeError::NotConfigured { instance_id }.message_spec(),
            "unknown tool"@,
        ),
        !seq_contains(
            InvokeError::NotConfigured { instance_id }.message_spec(),
            "disabled by policy"@,
        ),
    ensures
        error_kind_of(InvokeError::NotConfigured { instance_id }.message_spec())
            == ToolErrorKind::Unavailable,
{
    let msg = InvokeError::NotConfigured { instance_id }.message_spec();
    reveal_strlit("instance `");
    reveal_strlit("` is not configured");
    reveal_strlit("not configured");
    let start: int = msg.len() - 14;
    assert(msg.subrange(start, start + 14) =~= "not configured"@);
    assert(occurs_at(msg, "not configured"@, start));
}

/// A call from an agent with no profile is reported as Unavailable,
/// unless the agent id itself carries one of the earlier keywords.
pub proof fn law_missing_profile_is_unavailable(agent_id: String)
    requires
        !seq_contains(InvokeError::NoInstance { agent_id }.message_spec(), "unknown tool"@),
        !seq_contains(
            InvokeError::NoInstance { agent_id }.message_spec(),
            "disabled by policy"@,
        ),
    ensures
        error_kind_of(InvokeError::NoInstance { agent_id }.message_spec())
            == ToolErrorKind::Unavailable,
{
    let msg = InvokeError::NoInstance { agent_id }.message_spec();
    reveal_strlit("agent `");
    reveal_strlit("` has no configured web_search instance (no private profile in `by_agent` and no shared instance in `instances[].agent_id == None`)");
    reveal_strlit("no configured web_search instance");
    let start: int = agent_id@.len() as int + 13;
    assert(msg.subrange(start, start + 33) =~= "no configured web_search instance"@);
    assert(occurs_at(msg, "no configured web_search instance"@, start));
}

/// Arguments that did not parse are reported as ArgumentInvalid, unless
/// the parser's text carries one of the earlier keywords.
pub proof fn law_invalid_args_is_argument_invalid(detail: String)
    requires
        ({
            let msg = InvokeError::InvalidArgs { detail }.message_spec();
            &&& !seq_contains(msg, "unknown tool"@)
            &&& !seq_contains(msg, "disabled by policy"@)
            &&& !seq_contains(msg, "no configured web_search instance"@)
            &&& !seq_contains(msg, "not configured"@)
            &&& !seq_contains(msg, "breaker open"@)
        }),
    ensures
        error_kind_of(InvokeError::InvalidArgs { detail }.message_spec())
            == ToolErrorKind::ArgumentInvalid,
{
    let msg = InvokeError::InvalidArgs { detail }.message_spec();
    reveal_strlit("web_search args: ");
    reveal_strlit("web_search args:");
    assert(msg.subrange(0, 16) =~= "web_search args:"@);
    assert(occurs_at(msg, "web_search args:"@, 0));
}

/// A call that names an instance resolves to that instance, whatever
/// private or shared profiles the calling agent has.
pub proof fn law_explicit_instance_wins(p: &WebSearchPlugin, x: Seq<char>, a: Seq<char>)
    ensures
        p.resolution(Some(x), a) == Some(x),
{
}

/// Without an explicit instance, a call lands on one of the calling
/// agent's own profiles when it has any, and otherwise on a shared
/// instance or nowhere: never on another agent's private profile.
pub proof fn law_implicit_resolution_stays_with_the_agent(p: &WebSearchPlugin, a: Seq<char>)
    ensures
        p.agent_map().contains_key(a) && p.agent_map()[a].len() > 0 ==> p.resolution(None, a)
            is Some && p.agent_map()[a].contains(p.resolution(None, a)->0),
        !(p.agent_map().contains_key(a) && p.agent_map()[a].len() > 0) ==> match p.resolution(
            None,
            a,
        ) {
            Some(id) => p.shared_seq().contains(id),
            None => p.shared_seq().len() == 0,
        },
{
    if p.agent_map().contains_key(a) && p.agent_map()[a].len() > 0 {
        assert(p.agent_map()[a][0] == p.agent_map()[a][0]);
    } else if p.shared_seq().len() > 0 {
        assert(p.shared_seq()[0] == p.shared_seq()[0]);
    }
}

/// Each admin method names its command, and the cache commands carry the
/// request's `instance` unchanged (one named instance, or all when none is
/// named).
pub proof fn law_admin_methods_name_their_commands(instance: Option<String>)
    ensures
        admin_request_for("nexo/admin/web_search/bot_info"@, instance) == AdminRequest::BotInfo,
        admin_request_for("nexo/admin/web_search/cache_stats"@, instance) == (
        AdminRequest::CacheStats { instance }),
        admin_request_for("nexo/admin/web_search/cache_clear"@, instance) == (
        AdminRequest::CacheClear { instance }),
        admin_request_for("nexo/admin/web_search/provider_status"@, instance)
            == AdminRequest::ProviderStatus,
        admin_request_for("nexo/admin/web_search/list_instances"@, instance)
            == AdminRequest::ListInstances,
{
    reveal_strlit("nexo/admin/web_search/bot_info");
    reveal_strlit("nexo/admin/web_search/cache_stats");
    reveal_strlit("nexo/admin/web_search/cache_clear");
    reveal_strlit("nexo/admin/web_search/provider_status");
    reveal_strlit("nexo/admin/web_search/list_instances");
    assert("nexo/admin/web_search/cache_stats"@[22] != "nexo/admin/web_search/bot_info"@[22]);
    assert("nexo/admin/web_search/cache_clear"@[22] != "nexo/admin/web_search/bot_info"@[22]);
    assert("nexo/admin/web_search/cache_clear"@[28] != "nexo/admin/web_search/cache_stats"@[28]);
    assert("nexo/admin/web_search/provider_status"@[22] != "nexo/admin/web_search/bot_info"@[22]);
    assert("nexo/admin/web_search/provider_status"@[22] != "nexo/admin/web_search/cache_stats"@[22]);
    assert("nexo/admin/web_search/provider_status"@[22] != "nexo/admin/web_search/cache_clear"@[22]);
    assert("nexo/admin/web_search/list_instances"@[22] != "nexo/admin/web_search/bot_info"@[22]);
    assert("nexo/admin/web_search/list_instances"@[22] != "nexo/admin/web_search/cache_stats"@[22]);
    assert("nexo/admin/web_search/list_instances"@[22] != "nexo/admin/web_search/cache_clear"@[22]);
    assert("nexo/admin/web_search/list_instances"@[22]
        != "nexo/admin/web_search/provider_status"@[22]);
}

/// A method that names none of the five commands is unknown.
pub proof fn law_other_methods_are_unknown(method: Seq<char>, instance: Option<String>)
    requires
        method != "nexo/admin/web_search/bot_info"@,
        method != "nexo/admin/web_search/cache_stats"@,
        method != "nexo/admin/web_search/cache_clear"@,
        method != "nexo/admin/web_search/provider_status"@,
        method != "nexo/admin/web_search/list_instances"@,
    ensures
        admin_request_for(method, instance) is Unknown,
{
}

/// The rank of a provider in the list an instance plans: Brave, then
/// Tavily, then DuckDuckGo.
pub open spec fn provider_rank(p: ProviderSpec) -> int {
    match p {
        ProviderSpec::Brave { .. } => 0,
        ProviderSpec::Tavily { .. } => 1,
        ProviderSpec::DuckDuckGo { .. } => 2,
    }
}

/// The providers an instance plans are exactly those its configuration
/// declares and can use: Brave and Tavily when declared and their key is
/// present (with that key and the declared timeout), DuckDuckGo when
/// declared (no key); a perplexity block adds nothing. They come in the
/// order Brave, Tavily, DuckDuckGo, each at most once, and the list is
/// empty (the instance is refused) exactly when none of them is usable.
pub proof fn law_planned_providers(
    cfg: ProvidersConfig,
    brave_key: Option<String>,
    tavily_key: Option<String>,
)
    ensures
        ({
            let ps = provider_plan(cfg, brave_key, tavily_key);
            &&& cfg.brave is Some && brave_key is Some ==> ps.contains(
                (ProviderSpec::Brave {
                    api_key: brave_key->0,
                    timeout_ms: cfg.brave->0.timeout_ms,
                }),
            )
            &&& cfg.tavily is Some && tavily_key is Some ==> ps.contains(
                (ProviderSpec::Tavily {
                    api_key: tavily_key->0,
                    timeout_ms: cfg.tavily->0.timeout_ms,
                }),
            )
            &&& cfg.duckduckgo is Some ==> ps.contains(
                (ProviderSpec::DuckDuckGo { timeout_ms: cfg.duckduckgo->0.timeout_ms }),
            )
            &&& forall|i: int|
                0 <= i < ps.len() ==> match #[trigger] ps[i] {
                    ProviderSpec::Brave { api_key, timeout_ms } => cfg.brave is Some
                        && brave_key == Some(api_key) && timeout_ms == cfg.brave->0.timeout_ms,
                    ProviderSpec::Tavily { api_key, timeout_ms } => cfg.tavily is Some
                        && tavily_key == Some(api_key) && timeout_ms == cfg.tavily->0.timeout_ms,
                    ProviderSpec::DuckDuckGo { timeout_ms } => cfg.duckduckgo is Some && timeout_ms
                        == cfg.duckduckgo->0.timeout_ms,
                }
            &&& forall|i: int, j: int|
                0 <= i < j < ps.len() ==> provider_rank(#[trigger] ps[i]) < provider_rank(
                    #[trigger] ps[j],
                )
            &&& (ps.len() == 0 <==> !(cfg.brave is Some && brave_key is Some) && !(cfg.tavily is Some
                && tavily_key is Some) && cfg.duckduckgo is None)
        }),
{
    let ps = provider_plan(cfg, brave_key, tavily_key);
    if cfg.brave is Some && brave_key is Some {
        assert(ps[0] == (ProviderSpec::Brave {
            api_key: brave_key->0,
            timeout_ms: cfg.brave->0.timeout_ms,
        }));
    }
    let nb: int = if cfg.brave is Some && brave_key is Some { 1 } else { 0 };
    if cfg.tavily is Some && tavily_key is Some {
        assert(ps[nb] == (ProviderSpec::Tavily {
            api_key: tavily_key->0,
            timeout_ms: cfg.tavily->0.timeout_ms,
        }));
    }
    if cfg.duckduckgo is Some {
        assert(ps[ps.len() - 1] == (ProviderSpec::DuckDuckGo {
            timeout_ms: cfg.duckduckgo->0.timeout_ms,
        }));
    }
}

/// An enabled cache is opened at the configured path (a sqlite file, or in
/// memory when no path is given) with the configured time-to-live, raised
/// to one second when it is zero; a disabled cache is not opened.
pub proof fn law_cache_opened_as_configured(inst: WebSearchInstance)
    ensures
        inst.cache.enabled ==> cache_plan(inst) is Some && cache_plan(inst)->0.path
            == inst.cache.path && cache_plan(inst)->0.ttl_secs >= 1 && (inst.cache.ttl_secs >= 1
            ==> cache_plan(inst)->0.ttl_secs == inst.cache.ttl_secs),
        !inst.cache.enabled ==> cache_plan(inst) is None,
{
}

/// What a call sets itself wins over the binding's defaults: an `expand`
/// it asks for stays on, a `count` it gives stays, a provider it names is
/// the one asked for; the query and filters pass through untouched. The
/// policy only fills what the call left out (`default_count` capped at
/// 255, `expand_default`).
pub proof fn law_call_settings_win(args: SearchArgs, policy: Option<BindingPolicy>)
    ensures
        ({
            let out = with_policy_defaults(args, policy);
            &&& args.expand ==> out.expand
            &&& !args.expand ==> out.expand == (policy is Some && policy->0.expand_default
                == Some(true))
            &&& args.count is Some ==> out.count == args.count
            &&& args.count is None ==> (out.count is Some <==> policy is Some
                && policy->0.default_count is Some)
            &&& args.count is None && out.count is Some ==> out.count->0 <= 255 && (
            policy->0.default_count->0 <= 255 ==> out.count->0 == policy->0.default_count->0)
                && (policy->0.default_count->0 > 255 ==> out.count->0 == 255)
            &&& out.query == args.query
            &&& out.provider == args.provider
            &&& out.freshness == args.freshness
            &&& out.country == args.country
            &&& out.language == args.language
            &&& args.provider is Some ==> provider_pick(args, policy) == Some(args.provider->0@)
        }),
{
}

/// Only a binding whose policy says `enabled: false` turns the tool off;
/// no policy, or one that leaves `enabled` out or sets it, lets calls
/// through.
pub proof fn law_policy_gate(policy: Option<BindingPolicy>)
    ensures
        policy_disables(policy) <==> policy is Some && policy->0.enabled == Some(false),
{
}

/// The provider asked for: the call's own pick when it names one; else
/// the policy's, unless it is empty or `auto`; else none.
pub proof fn law_provider_pick(args: SearchArgs, policy: Option<BindingPolicy>)
    ensures
        args.provider is Some ==> provider_pick(args, policy) == Some(args.provider->0@),
        args.provider is None ==> provider_pick(args, policy) == (if policy is Some
            && policy->0.provider is Some && policy->0.provider->0@.len() > 0
            && policy->0.provider->0@ != "auto"@ {
            Some(policy->0.provider->0@)
        } else {
            None
        }),
{
}

/// The router is asked once with a named provider; otherwise once per
/// entry of the instance's fallback order, in that order; with no order,
/// once with no pick (the router's own order).
pub proof fn law_attempts(provider: Option<Seq<char>>, order: Seq<Seq<char>>)
    ensures
        provider is Some ==> attempts_for(provider, order) == seq![provider],
        provider is None && order.len() == 0 ==> attempts_for(provider, order) == seq![
            None::<Seq<char>>,
        ],
        provider is None && order.len() > 0 ==> attempts_for(provider, order).len() == order.len()
            && forall|i: int|
            0 <= i < order.len() ==> #[trigger] attempts_for(provider, order)[i] == Some(order[i]),
{
}

/// What a cache command reports for one instance: an unknown instance is
/// an error row naming it; an instance without a cache is a success with
/// `cache_enabled: false` (and, for clear, nothing deleted); a cache that
/// answered gives its entry count (stats) or the rows it deleted (clear);
/// a cache error is an error row with the cache's text.
pub proof fn law_cache_rows(r: CacheRow, command: CacheCommand, instance: Seq<char>, outcome: CacheOutcome)
    requires
        cache_row_is(r, command, instance, outcome),
    ensures
        r.instance@ == instance,
        r.ok <==> !(outcome is NotConfigured || outcome is Failed),
        outcome is NotConfigured ==> r.error is Some && r.error->0@ == "instance not configured"@,
        outcome is Failed ==> r.error is Some && r.error->0@ == outcome->Failed_0@,
        outcome is Disabled ==> r.cache_enabled == Some(false) && r.entries is None
            && (command == CacheCommand::Clear ==> r.rows_deleted == Some(0u64)),
        outcome is Counted && command == CacheCommand::Stats ==> r.entries == Some(
            outcome->Counted_0,
        ) && r.rows_deleted is None,
        outcome is Counted && command == CacheCommand::Clear ==> r.rows_deleted == Some(
            outcome->Counted_0,
        ) && r.entries is None,
{
}

/// An instance's fallback order names only providers the instance has,
/// each once, and every such provider that its `default_order` declares;
/// two of them keep the order in which they are first declared.
pub proof fn law_fallback_order(declared: Seq<Seq<char>>, planned: Seq<ProviderSpec>)
    ensures
        forall|i: int|
            0 <= i < provider_order(declared, planned).len() ==> plans_provider(
                planned,
                #[trigger] provider_order(declared, planned)[i],
            ) && declared.contains(provider_order(declared, planned)[i]),
        forall|i: int, j: int|
            0 <= i < j < provider_order(declared, planned).len() ==> #[trigger] provider_order(
                declared,
                planned,
            )[i] != #[trigger] provider_order(declared, planned)[j],
        forall|k: int|
            0 <= k < declared.len() && plans_provider(planned, #[trigger] declared[k])
                ==> provider_order(declared, planned).contains(declared[k]),
    decreases declared.len(),
{
    if declared.len() > 0 {
        let prev_d = declared.drop_last();
        law_fallback_order(prev_d, planned);
        let prev = provider_order(prev_d, planned);
        let out = provider_order(declared, planned);
        let name = declared.last();
        assert forall|i: int| 0 <= i < out.len() implies plans_provider(planned, #[trigger] out[i])
            && declared.contains(out[i]) by {
            if i < prev.len() {
                assert(out[i] == prev[i]);
                let k = choose|k: int| 0 <= k < prev_d.len() && prev_d[k] == prev[i];
                assert(declared[k] == prev_d[k]);
            } else {
                assert(out[i] == name);
                assert(declared[declared.len() - 1] == name);
            }
        }
        assert forall|k: int|
            0 <= k < declared.len() && plans_provider(planned, #[trigger] declared[k]) implies out.contains(
            declared[k]) by {
            if k < declared.len() - 1 {
                assert(prev_d[k] == declared[k]);
                let i = choose|i: int| 0 <= i < prev.len() && prev[i] == declared[k];
                assert(out[i] == prev[i]);
            } else if prev.contains(name) {
                let i = choose|i: int| 0 <= i < prev.len() && prev[i] == name;
                assert(out[i] == prev[i]);
            } else {
                assert(out[out.len() - 1] == name);
            }
        }
    }
}

} // verus!
