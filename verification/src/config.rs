//! Operator configuration for the web-search plugin: the shape of
//! `web-search.yaml`, its defaults, and the pre-flight validation that
//! runs before any instance is built.
//!
//! Paths are held as `String`s; the operator file names them as YAML
//! strings.
use vstd::prelude::*;

use crate::text::{concat3, path_eq, same_path};

verus! {

/// Default per-provider request timeout, in milliseconds.
pub fn default_timeout_ms() -> (r: u64)
    ensures
        r == 10_000,
{
    10_000
}

/// Caches are on unless the operator turns them off.
pub fn default_cache_enabled() -> (r: bool)
    ensures
        r == true,
{
    true
}

/// Default cache time-to-live, in seconds.
pub fn default_cache_ttl() -> (r: u64)
    ensures
        r == 600,
{
    600
}

/// One provider block (`brave:`, `tavily:`, ...).
#[derive(Debug, Clone)]
pub struct ProviderEntry {
    pub api_key_path: Option<String>,
    pub timeout_ms: u64,
}

/// The provider set of one instance.
#[derive(Debug, Clone, Default)]
pub struct ProvidersConfig {
    pub brave: Option<ProviderEntry>,
    pub tavily: Option<ProviderEntry>,
    pub perplexity: Option<ProviderEntry>,
    pub duckduckgo: Option<ProviderEntry>,
}

/// Per-instance cache settings.
#[derive(Debug, Clone)]
pub struct CacheConfig {
    pub enabled: bool,
    pub path: Option<String>,
    pub ttl_secs: u64,
}

impl Default for CacheConfig {
    fn default() -> (r: Self)
        ensures
            r.enabled == true,
            r.path is None,
            r.ttl_secs == 600,
    {
        CacheConfig { enabled: default_cache_enabled(), path: None, ttl_secs: default_cache_ttl() }
    }
}

/// One search profile. Without `agent_id` it is shared by every agent;
/// with one it is private to that agent.
#[derive(Debug, Clone)]
pub struct WebSearchInstance {
    pub id: String,
    pub agent_id: Option<String>,
    pub providers: ProvidersConfig,
    pub cache: CacheConfig,
    pub default_order: Vec<String>,
}

/// The whole operator file.
#[derive(Debug, Clone, Default)]
pub struct WebSearchConfigFile {
    pub instances: Vec<WebSearchInstance>,
}

/// Why a configuration was refused before anything was built.
#[derive(Debug, Clone)]
pub enum ConfigError {
    /// Two instances share an id.
    DuplicateInstanceId { id: String },
    /// Two cache-enabled instances name the same sqlite file.
    CacheCollision { id: String, path: String },
    /// Building the instance failed (unreadable key file, cache open error,
    /// no provider declared, ...). `cause` is the underlying message.
    Build { id: String, cause: String },
}

impl ConfigError {
    /// The error's text. A build failure shows which instance failed;
    /// its cause is kept in `cause`.
    pub open spec fn message_spec(&self) -> Seq<char> {
        match self {
            ConfigError::DuplicateInstanceId { id } => "duplicate instance id `"@ + id@
                + "` in web-search.yaml"@,
            ConfigError::CacheCollision { id, path } => "instance `"@ + id@ + "` cache.path `"@
                + path@ + "` collides with another instance"@,
            ConfigError::Build { id, .. } => "building router for instance `"@ + id@ + "`"@,
        }
    }

    /// The error's text.
    pub fn message(&self) -> (r: String)
        ensures
            r@ == self.message_spec(),
    {
        match self {
            ConfigError::DuplicateInstanceId { id } => concat3(
                "duplicate instance id `",
                id.as_str(),
                "` in web-search.yaml",
            ),
            ConfigError::CacheCollision { id, path } => {
                let mut r = concat3("instance `", id.as_str(), "` cache.path `");
                r.append(path.as_str());
                r.append("` collides with another instance");
                r
            },
            ConfigError::Build { id, .. } => concat3(
                "building router for instance `",
                id.as_str(),
                "`",
            ),
        }
    }
}

/// The cache file an instance claims: its path when the cache is on and
/// a path is given.
pub open spec fn cache_claim(inst: WebSearchInstance) -> Option<Seq<char>> {
    if inst.cache.enabled {
        match inst.cache.path {
            Some(p) => Some(p@),
            None => None,
        }
    } else {
        None
    }
}

/// Instance `i` repeats the id of an earlier instance.
pub open spec fn duplicate_id_at(insts: Seq<WebSearchInstance>, i: int) -> bool {
    exists|j: int| 0 <= j < i && #[trigger] insts[j].id@ == insts[i].id@
}

/// Instance `i` claims a cache file that an earlier instance claims too.
pub open spec fn cache_collision_at(insts: Seq<WebSearchInstance>, i: int) -> bool {
    match cache_claim(insts[i]) {
        Some(p) => exists|j: int|
            0 <= j < i && #[trigger] cache_claim(insts[j]) is Some && path_eq(
                cache_claim(insts[j])->0,
                p,
            ),
        None => false,
    }
}

pub open spec fn conflict_at(insts: Seq<WebSearchInstance>, i: int) -> bool {
    duplicate_id_at(insts, i) || cache_collision_at(insts, i)
}

/// `i` is the first instance that conflicts with an earlier one.
pub open spec fn first_conflict(insts: Seq<WebSearchInstance>, i: int) -> bool {
    &&& 0 <= i < insts.len()
    &&& conflict_at(insts, i)
    &&& forall|k: int| 0 <= k < i ==> !#[trigger] conflict_at(insts, k)
}

/// A configuration that passes pre-flight: instance ids are unique and
/// no two cache-enabled instances share a cache file.
pub open spec fn config_valid(insts: Seq<WebSearchInstance>) -> bool {
    forall|i: int| 0 <= i < insts.len() ==> !#[trigger] conflict_at(insts, i)
}

/// What pre-flight reports for a list of instances.
pub open spec fn validation_outcome(
    insts: Seq<WebSearchInstance>,
    r: Result<(), ConfigError>,
) -> bool {
    match r {
        Ok(()) => config_valid(insts),
        Err(ConfigError::DuplicateInstanceId { id }) => exists|i: int|
            first_conflict(insts, i) && duplicate_id_at(insts, i) && #[trigger] insts[i].id@
                == id@,
        Err(ConfigError::CacheCollision { id, path }) => exists|i: int|
            first_conflict(insts, i) && !duplicate_id_at(insts, i) && #[trigger] insts[i].id@
                == id@ && cache_claim(insts[i]) == Some(path@),
        Err(ConfigError::Build { .. }) => false,
    }
}

pub proof fn lemma_valid_ids_distinct(insts: Seq<WebSearchInstance>, i: int, j: int)
    requires
        config_valid(insts),
        0 <= i < insts.len(),
        0 <= j < insts.len(),
        i != j,
    ensures
        insts[i].id@ != insts[j].id@,
{
    if i < j {
        assert(!conflict_at(insts, j));
    } else {
        assert(!conflict_at(insts, i));
    }
}

fn claimed_path(inst: &WebSearchInstance) -> (r: Option<&String>)
    ensures
        match r {
            Some(p) => cache_claim(*inst) == Some(p@),
            None => cache_claim(*inst) is None,
        },
{
    if inst.cache.enabled {
        match &inst.cache.path {
            Some(p) => Some(p),
            None => None,
        }
    } else {
        None
    }
}

/// Pre-flight check of a configuration: instance ids must be unique and
/// cache files must not be shared. Reports the first offending instance,
/// checking its id before its cache path.
pub fn validate_config(file: &WebSearchConfigFile) -> (r: Result<(), ConfigError>)
    ensures
        validation_outcome(file.instances@, r),
        r is Ok <==> config_valid(file.instances@),
{
    let insts = &file.instances;
    let n = insts.len();
    let mut i: usize = 0;
    while i < n
        invariant
            n == insts@.len(),
            insts@ == file.instances@,
            i <= n,
            forall|k: int| 0 <= k < i ==> !#[trigger] conflict_at(insts@, k),
        decreases n - i,
    {
        let inst = &insts[i];
        // Same id as an earlier instance?
        let mut j: usize = 0;
        while j < i
            invariant
                n == insts@.len(),
                insts@ == file.instances@,
                i < n,
                j <= i,
                *inst == insts@[i as int],
                forall|k: int| 0 <= k < i ==> !#[trigger] conflict_at(insts@, k),
                forall|k: int| 0 <= k < j ==> insts@[k].id@ != insts@[i as int].id@,
            decreases i - j,
        {
            if insts[j].id == inst.id {
                proof {
                    assert(duplicate_id_at(insts@, i as int));
                    assert(first_conflict(insts@, i as int));
                }
                let id = inst.id.clone();
                proof {
                    assert(insts@[i as int].id@ == id@);
                    assert(!config_valid(insts@));
                }
                return Err(ConfigError::DuplicateInstanceId { id });
            }
            j = j + 1;
        }
        assert(!duplicate_id_at(insts@, i as int));
        // Same cache file as an earlier instance?
        match claimed_path(inst) {
            Some(p) => {
                let mut j: usize = 0;
                while j < i
                    invariant
                        n == insts@.len(),
                        insts@ == file.instances@,
                        i < n,
                        j <= i,
                        *inst == insts@[i as int],
                        cache_claim(insts@[i as int]) == Some(p@),
                        !duplicate_id_at(insts@, i as int),
                        forall|k: int| 0 <= k < i ==> !#[trigger] conflict_at(insts@, k),
                        forall|k: int|
                            0 <= k < j ==> !(#[trigger] cache_claim(insts@[k]) is Some && path_eq(
                                cache_claim(insts@[k])->0,
                                p@,
                            )),
                    decreases i - j,
                {
                    match claimed_path(&insts[j]) {
                        Some(q) => {
                            if same_path(q.as_str(), p.as_str()) {
                                proof {
                                    assert(cache_collision_at(insts@, i as int));
                                    assert(first_conflict(insts@, i as int));
                                }
                                let id = inst.id.clone();
                                let path = p.clone();
                                proof {
                                    assert(insts@[i as int].id@ == id@);
                                    assert(!config_valid(insts@));
                                }
                                return Err(ConfigError::CacheCollision { id, path });
                            }
                        },
                        None => {},
                    }
                    j = j + 1;
                }
                assert(!cache_collision_at(insts@, i as int));
            },
            None => {
                assert(!cache_collision_at(insts@, i as int));
            },
        }
        assert(!conflict_at(insts@, i as int));
        i = i + 1;
    }
    Ok(())
}

} // verus!
