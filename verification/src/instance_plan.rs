//! What building one instance takes: which providers it gets from the
//! keys read for it, how its cache is opened, and the router built over
//! those providers. Reading the key files and opening the cache happen
//! at the edge; the choices are made here.
use std::sync::Arc;
use vstd::prelude::*;

use nexo_web_search::providers::brave::BraveProvider;
use nexo_web_search::providers::duckduckgo::DuckDuckGoProvider;
use nexo_web_search::providers::tavily::TavilyProvider;
use nexo_web_search::{WebSearchCache, WebSearchProvider, WebSearchRouter};

use crate::backend::{router_provider_ids, InstanceState};
use crate::config::{ProviderEntry, ProvidersConfig, WebSearchInstance};
use crate::text::{concat2, concat3, copy_strings, str_eq};

verus! {

/// Unicode `White_Space`: the characters `char::is_whitespace` accepts
/// and `str::trim` removes.
pub open spec fn is_white_space(c: char) -> bool {
    let u = c as u32;
    (0x09 <= u && u <= 0x0d) || u == 0x20 || u == 0x85 || u == 0xa0 || u == 0x1680 || (0x2000
        <= u && u <= 0x200a) || u == 0x2028 || u == 0x2029 || u == 0x202f || u == 0x205f || u
        == 0x3000
}

/// `s` without its leading white space.
pub open spec fn strip_leading(s: Seq<char>) -> Seq<char>
    decreases s.len(),
{
    if s.len() > 0 && is_white_space(s[0]) {
        strip_leading(s.drop_first())
    } else {
        s
    }
}

/// `s` without its trailing white space.
pub open spec fn strip_trailing(s: Seq<char>) -> Seq<char>
    decreases s.len(),
{
    if s.len() > 0 && is_white_space(s.last()) {
        strip_trailing(s.drop_last())
    } else {
        s
    }
}

/// `s` without leading and trailing white space.
pub open spec fn trimmed(s: Seq<char>) -> Seq<char> {
    strip_trailing(strip_leading(s))
}

fn white_space(c: char) -> (r: bool)
    ensures
        r == is_white_space(c),
{
    let u = c as u32;
    (0x09 <= u && u <= 0x0d) || u == 0x20 || u == 0x85 || u == 0xa0 || u == 0x1680 || (0x2000
        <= u && u <= 0x200a) || u == 0x2028 || u == 0x2029 || u == 0x202f || u == 0x205f || u
        == 0x3000
}

/// Stripping leading white space keeps what follows the first other
/// character (at `a`).
proof fn lemma_strip_leading(s: Seq<char>, a: int)
    requires
        0 <= a <= s.len(),
        forall|i: int| 0 <= i < a ==> is_white_space(#[trigger] s[i]),
        a == s.len() || !is_white_space(s[a]),
    ensures
        strip_leading(s) == s.subrange(a, s.len() as int),
    decreases a,
{
    if a > 0 {
        assert forall|i: int| 0 <= i < a - 1 implies is_white_space(#[trigger] s.drop_first()[i]) by {
            assert(s.drop_first()[i] == s[i + 1]);
        }
        lemma_strip_leading(s.drop_first(), a - 1);
        assert(s.drop_first().subrange(a - 1, s.len() - 1) =~= s.subrange(a, s.len() as int));
    } else {
        assert(s.subrange(0, s.len() as int) =~= s);
    }
}

/// Stripping trailing white space keeps what precedes the last other
/// character's end (`b`).
proof fn lemma_strip_trailing(t: Seq<char>, b: int)
    requires
        0 <= b <= t.len(),
        forall|i: int| b <= i < t.len() ==> is_white_space(#[trigger] t[i]),
        b == 0 || !is_white_space(t[b - 1]),
    ensures
        strip_trailing(t) == t.subrange(0, b),
    decreases t.len() - b,
{
    if b < t.len() {
        assert forall|i: int| b <= i < t.len() - 1 implies is_white_space(#[trigger] t.drop_last()[i]) by {
            assert(t.drop_last()[i] == t[i]);
        }
        lemma_strip_trailing(t.drop_last(), b);
        assert(t.drop_last().subrange(0, b) =~= t.subrange(0, b));
    } else {
        assert(t.subrange(0, b) =~= t);
    }
}

/// The string without leading and trailing Unicode white space, as
/// `str::trim` documents it.
fn trim(s: &str) -> (r: String)
    ensures
        r@ == trimmed(s@),
{
    let n = s.unicode_len();
    let mut a: usize = 0;
    while a < n
        invariant
            a <= n,
            n == s@.len(),
            forall|i: int| 0 <= i < a ==> is_white_space(#[trigger] s@[i]),
        ensures
            a <= n,
            forall|i: int| 0 <= i < a ==> is_white_space(#[trigger] s@[i]),
            a == n || !is_white_space(s@[a as int]),
        decreases n - a,
    {
        if !white_space(s.get_char(a)) {
            break;
        }
        a = a + 1;
    }
    let mut b: usize = n;
    while b > a
        invariant
            a <= b <= n,
            n == s@.len(),
            forall|i: int| b <= i < n ==> is_white_space(#[trigger] s@[i]),
        ensures
            a <= b <= n,
            forall|i: int| b <= i < n ==> is_white_space(#[trigger] s@[i]),
            b == a || !is_white_space(s@[b - 1]),
        decreases b,
    {
        if !white_space(s.get_char(b - 1)) {
            break;
        }
        b = b - 1;
    }
    proof {
        lemma_strip_leading(s@, a as int);
        let t = s@.subrange(a as int, n as int);
        assert forall|i: int| b - a <= i < t.len() implies is_white_space(#[trigger] t[i]) by {
            assert(t[i] == s@[a + i]);
        }
        if b > a {
            assert(t[b - a - 1] == s@[b - 1]);
        }
        lemma_strip_trailing(t, b - a);
        assert(t.subrange(0, b - a) =~= s@.subrange(a as int, b as int));
    }
    String::from_str(s.substring_char(a, b))
}

/// The API key a key file holds: its contents without surrounding white
/// space, or none when nothing is left.
pub fn api_key_from_contents(raw: &str) -> (r: Option<String>)
    ensures
        match r {
            Some(k) => trimmed(raw@).len() > 0 && k@ == trimmed(raw@),
            None => trimmed(raw@).len() == 0,
        },
{
    let t = trim(raw);
    if t.as_str().unicode_len() == 0 {
        None
    } else {
        Some(t)
    }
}

/// One provider the router will hold.
#[derive(Debug, Clone)]
pub enum ProviderSpec {
    Brave { api_key: String, timeout_ms: u64 },
    Tavily { api_key: String, timeout_ms: u64 },
    DuckDuckGo { timeout_ms: u64 },
}

/// How an instance's cache is opened: a sqlite file, or in memory when no
/// path is given. The time-to-live is at least one second.
#[derive(Debug, Clone)]
pub struct CacheSpec {
    pub path: Option<String>,
    pub ttl_secs: u64,
}

/// Everything an instance is built from.
#[derive(Debug)]
pub struct InstancePlan {
    pub providers: Vec<ProviderSpec>,
    /// The order in which a call that names no provider tries the
    /// instance's providers (see `provider_order`); empty leaves the
    /// router's own order.
    pub order: Vec<String>,
    pub cache: Option<CacheSpec>,
    /// A perplexity block was declared; this build has no perplexity
    /// provider, so it is skipped with a warning.
    pub perplexity_skipped: bool,
}

/// Why an instance could not be built.
#[derive(Debug, Clone)]
pub enum BuildError {
    /// A key file could not be read.
    KeyFile { path: String },
    /// Neither a keyed provider with a key nor DuckDuckGo is declared.
    NoProviders { id: String },
    /// Opening the cache failed.
    CacheOpen { id: String, in_memory: bool, cause: String },
}

impl BuildError {
    pub open spec fn message_spec(&self) -> Seq<char> {
        match self {
            BuildError::KeyFile { path } => "reading API key file at "@ + path@,
            BuildError::NoProviders { id } => "instance `"@ + id@
                + "` declares no providers; at least one is required"@,
            BuildError::CacheOpen { id, in_memory, cause } => if *in_memory {
                "opening in-memory cache for `"@ + id@ + "`: "@ + cause@
            } else {
                "opening cache for `"@ + id@ + "`: "@ + cause@
            },
        }
    }

    /// The error's text.
    pub fn message(&self) -> (r: String)
        ensures
            r@ == self.message_spec(),
    {
        match self {
            BuildError::KeyFile { path } => concat2("reading API key file at ", path.as_str()),
            BuildError::NoProviders { id } => concat3(
                "instance `",
                id.as_str(),
                "` declares no providers; at least one is required",
            ),
            BuildError::CacheOpen { id, in_memory, cause } => {
                let head = if *in_memory {
                    concat3("opening in-memory cache for `", id.as_str(), "`: ")
                } else {
                    concat3("opening cache for `", id.as_str(), "`: ")
                };
                concat2(head.as_str(), cause.as_str())
            },
        }
    }
}

/// The key file a keyed provider reads, if it names one.
pub fn key_file(entry: &Option<ProviderEntry>) -> (r: Option<String>)
    ensures
        r == (match entry {
            Some(e) => e.api_key_path,
            None => None,
        }),
{
    match entry {
        Some(e) => match &e.api_key_path {
            Some(p) => Some(p.clone()),
            None => None,
        },
        None => None,
    }
}

/// The keyed provider an entry yields with its key, if both are there.
pub open spec fn keyed(entry: Option<ProviderEntry>, key: Option<String>, brave: bool) -> Seq<
    ProviderSpec,
> {
    match (entry, key) {
        (Some(e), Some(k)) => if brave {
            seq![ProviderSpec::Brave { api_key: k, timeout_ms: e.timeout_ms }]
        } else {
            seq![ProviderSpec::Tavily { api_key: k, timeout_ms: e.timeout_ms }]
        },
        _ => Seq::empty(),
    }
}

/// The providers of an instance, in the order the router receives them:
/// Brave and Tavily when declared and their key is present, then
/// DuckDuckGo (no key) when declared.
pub open spec fn provider_plan(
    cfg: ProvidersConfig,
    brave_key: Option<String>,
    tavily_key: Option<String>,
) -> Seq<ProviderSpec> {
    keyed(cfg.brave, brave_key, true) + keyed(cfg.tavily, tavily_key, false) + match cfg.duckduckgo {
        Some(e) => seq![ProviderSpec::DuckDuckGo { timeout_ms: e.timeout_ms }],
        None => Seq::empty(),
    }
}

/// The id the router knows a provider by.
pub open spec fn provider_id_of(p: ProviderSpec) -> Seq<char> {
    match p {
        ProviderSpec::Brave { .. } => "brave"@,
        ProviderSpec::Tavily { .. } => "tavily"@,
        ProviderSpec::DuckDuckGo { .. } => "duckduckgo"@,
    }
}

/// One of the planned providers goes by `name`.
pub open spec fn plans_provider(planned: Seq<ProviderSpec>, name: Seq<char>) -> bool {
    exists|k: int| 0 <= k < planned.len() && #[trigger] provider_id_of(planned[k]) == name
}

/// An instance's fallback order: its declared `default_order`, keeping
/// the ids of providers it actually has, each at its first mention.
pub open spec fn provider_order(declared: Seq<Seq<char>>, planned: Seq<ProviderSpec>) -> Seq<
    Seq<char>,
>
    decreases declared.len(),
{
    if declared.len() == 0 {
        Seq::empty()
    } else {
        let prev = provider_order(declared.drop_last(), planned);
        let name = declared.last();
        if plans_provider(planned, name) && !prev.contains(name) {
            prev.push(name)
        } else {
            prev
        }
    }
}

fn provider_id(p: &ProviderSpec) -> (r: &'static str)
    ensures
        r@ == provider_id_of(*p),
{
    match p {
        ProviderSpec::Brave { .. } => "brave",
        ProviderSpec::Tavily { .. } => "tavily",
        ProviderSpec::DuckDuckGo { .. } => "duckduckgo",
    }
}

fn has_provider(planned: &Vec<ProviderSpec>, name: &str) -> (r: bool)
    ensures
        r == plans_provider(planned@, name@),
{
    let mut k: usize = 0;
    while k < planned.len()
        invariant
            k <= planned@.len(),
            forall|j: int| 0 <= j < k ==> provider_id_of(#[trigger] planned@[j]) != name@,
        decreases planned@.len() - k,
    {
        if str_eq(provider_id(&planned[k]), name) {
            return true;
        }
        k = k + 1;
    }
    false
}

fn listed(names: &Vec<String>, name: &str) -> (r: bool)
    ensures
        r == names.deep_view().contains(name@),
{
    let mut k: usize = 0;
    while k < names.len()
        invariant
            k <= names@.len(),
            forall|j: int| 0 <= j < k ==> names@[j]@ != name@,
        decreases names@.len() - k,
    {
        if str_eq(names[k].as_str(), name) {
            proof {
                assert(names.deep_view()[k as int] == name@);
            }
            return true;
        }
        k = k + 1;
    }
    proof {
        assert forall|j: int| 0 <= j < names.deep_view().len() implies names.deep_view()[j]
            != name@ by {
            assert(names.deep_view()[j] == names@[j]@);
        }
    }
    false
}

fn order_for(declared: &Vec<String>, planned: &Vec<ProviderSpec>) -> (r: Vec<String>)
    ensures
        r.deep_view() == provider_order(declared.deep_view(), planned@),
{
    let ghost names = declared.deep_view();
    let mut out: Vec<String> = Vec::new();
    let mut i: usize = 0;
    while i < declared.len()
        invariant
            i <= declared@.len(),
            names == declared.deep_view(),
            out.deep_view() == provider_order(names.take(i as int), planned@),
        decreases declared@.len() - i,
    {
        let name = declared[i].as_str();
        proof {
            assert(names.take(i + 1).drop_last() =~= names.take(i as int));
            assert(names.take(i + 1).last() == name@);
        }
        if has_provider(planned, name) && !listed(&out, name) {
            out.push(declared[i].clone());
            proof {
                assert(out.deep_view() =~= provider_order(names.take(i as int), planned@).push(
                    name@,
                ));
            }
        }
        i = i + 1;
    }
    proof {
        assert(names.take(declared@.len() as int) =~= names);
    }
    out
}

/// The cache an instance opens, if its cache is on.
pub open spec fn cache_plan(inst: WebSearchInstance) -> Option<CacheSpec> {
    if inst.cache.enabled {
        Some(
            CacheSpec {
                path: inst.cache.path,
                ttl_secs: if inst.cache.ttl_secs >= 1 {
                    inst.cache.ttl_secs
                } else {
                    1
                },
            },
        )
    } else {
        None
    }
}

/// Plan an instance from its configuration and the keys read for Brave
/// and Tavily (none when no key file is named or it holds no key). An
/// instance without any provider is refused.
pub fn plan_instance(
    inst: &WebSearchInstance,
    brave_key: Option<String>,
    tavily_key: Option<String>,
) -> (r: Result<InstancePlan, BuildError>)
    ensures
        ({
            let providers = provider_plan(inst.providers, brave_key, tavily_key);
            if providers.len() == 0 {
                r matches Err(BuildError::NoProviders { id }) && id@ == inst.id@
            } else {
                r matches Ok(plan) && plan.providers@ == providers && plan.cache == cache_plan(
                    *inst,
                ) && plan.perplexity_skipped == inst.providers.perplexity is Some
                    && plan.order.deep_view() == provider_order(
                    inst.default_order.deep_view(),
                    providers,
                )
            }
        }),
{
    let ghost want = provider_plan(inst.providers, brave_key, tavily_key);
    let mut providers: Vec<ProviderSpec> = Vec::new();
    match (&inst.providers.brave, brave_key) {
        (Some(e), Some(k)) => providers.push(ProviderSpec::Brave { api_key: k, timeout_ms: e.timeout_ms }),
        _ => {},
    }
    match (&inst.providers.tavily, tavily_key) {
        (Some(e), Some(k)) => providers.push(ProviderSpec::Tavily { api_key: k, timeout_ms: e.timeout_ms }),
        _ => {},
    }
    match &inst.providers.duckduckgo {
        Some(e) => providers.push(ProviderSpec::DuckDuckGo { timeout_ms: e.timeout_ms }),
        None => {},
    }
    proof {
        assert(providers@ =~= want);
    }
    if providers.len() == 0 {
        return Err(BuildError::NoProviders { id: inst.id.clone() });
    }
    let cache = if inst.cache.enabled {
        let ttl: u64 = if inst.cache.ttl_secs >= 1 {
            inst.cache.ttl_secs
        } else {
            1
        };
        let path = match &inst.cache.path {
            Some(p) => Some(p.clone()),
            None => None,
        };
        Some(CacheSpec { path, ttl_secs: ttl })
    } else {
        None
    };
    let order = order_for(&inst.default_order, &providers);
    Ok(
        InstancePlan {
            providers,
            order,
            cache,
            perplexity_skipped: inst.providers.perplexity.is_some(),
        },
    )
}

/// The ids of the planned providers.
pub open spec fn planned_ids(planned: Seq<ProviderSpec>) -> Set<Seq<char>> {
    Set::new(|k: Seq<char>| plans_provider(planned, k))
}

/// `WebSearchRouter::new` over the providers `BraveProvider::new`,
/// `TavilyProvider::new` and `DuckDuckGoProvider::new` build from the
/// planned list, in order, and the instance's cache. The router keys its
/// provider map by each provider's `id()` (`brave`, `tavily`,
/// `duckduckgo`), so its provider ids are the planned ones. The provider
/// constructors panic only when the HTTP client cannot be built (the TLS
/// backend fails to initialise), which depends on the machine and is not
/// ruled out here.
#[verifier::external_body]
pub fn build_router(providers: &Vec<ProviderSpec>, cache: Option<Arc<WebSearchCache>>) -> (r: Arc<
    WebSearchRouter,
>)
    ensures
        router_provider_ids(*r) == planned_ids(providers@),
{
    let built: Vec<Arc<dyn WebSearchProvider>> = providers.iter().map(|p| -> Arc<dyn WebSearchProvider> {
        match p {
            ProviderSpec::Brave { api_key, timeout_ms } => Arc::new(BraveProvider::new(api_key.clone(), *timeout_ms)),
            ProviderSpec::Tavily { api_key, timeout_ms } => Arc::new(TavilyProvider::new(api_key.clone(), *timeout_ms)),
            ProviderSpec::DuckDuckGo { timeout_ms } => Arc::new(DuckDuckGoProvider::new(*timeout_ms)),
        }
    }).collect();
    Arc::new(WebSearchRouter::new(built, cache))
}

/// The bundle of a planned instance: a router over exactly the planned
/// providers and the instance's cache (opened from `plan.cache`), that
/// cache's handle for the admin commands, and the planned fallback order.
pub fn instance_state(plan: &InstancePlan, cache: Option<Arc<WebSearchCache>>) -> (r: Arc<
    InstanceState,
>)
    ensures
        router_provider_ids(*r.router) == planned_ids(plan.providers@),
        r.cache == cache,
        r.order.deep_view() == plan.order.deep_view(),
{
    let router = build_router(&plan.providers, match &cache {
        Some(c) => Some(crate::backend::share(c)),
        None => None,
    });
    Arc::new(InstanceState::new(router, cache, copy_strings(&plan.order)))
}

} // verus!
