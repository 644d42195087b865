use std::sync::Arc;

use nexo_plugin_web_search::backend::InstanceState;
use nexo_plugin_web_search::config::{
    validate_config, CacheConfig, ConfigError, ProviderEntry, ProvidersConfig, WebSearchConfigFile,
    WebSearchInstance,
};
use nexo_plugin_web_search::instance_plan::{
    api_key_from_contents, instance_state, key_file, plan_instance, ProviderSpec,
};
use nexo_plugin_web_search::invoke::{SearchArgs, ToolArgs};
use nexo_plugin_web_search::plugin::WebSearchPlugin;
use nexo_web_search::WebSearchCache;

// Key files are stood in for by their contents: every `*_brave.txt`
// holds `test-brave-key`, `blank.txt` only white space, and no other file
// exists.
fn key_file_contents(path: &str) -> Result<String, String> {
    if path.ends_with("_brave.txt") {
        Ok("test-brave-key\n".to_string())
    } else if path == "blank.txt" {
        Ok("  \n\t ".to_string())
    } else {
        Err(format!("reading API key file at {path}"))
    }
}

fn brave_only(id: &str, agent: Option<&str>) -> WebSearchInstance {
    let key_path = format!("{id}_brave.txt");
    WebSearchInstance {
        id: id.into(),
        agent_id: agent.map(String::from),
        providers: ProvidersConfig {
            brave: Some(ProviderEntry {
                api_key_path: Some(key_path),
                timeout_ms: 8000,
            }),
            ..Default::default()
        },
        cache: CacheConfig {
            enabled: false,
            path: None,
            ttl_secs: 0,
        },
        default_order: vec!["brave".into()],
    }
}

fn read_key(entry: &Option<ProviderEntry>) -> Result<Option<String>, String> {
    match key_file(entry) {
        None => Ok(None),
        Some(path) => key_file_contents(&path).map(|raw| api_key_from_contents(&raw)),
    }
}

fn build(inst: &WebSearchInstance) -> Result<Arc<InstanceState>, String> {
    let brave = read_key(&inst.providers.brave)?;
    let tavily = read_key(&inst.providers.tavily)?;
    let plan = plan_instance(inst, brave, tavily).map_err(|e| e.message())?;
    let cache = match &plan.cache {
        None => None,
        Some(spec) => {
            let rt = tokio::runtime::Builder::new_current_thread().enable_all().build().unwrap();
            let ttl = std::time::Duration::from_secs(spec.ttl_secs);
            let opened = match &spec.path {
                Some(p) => rt.block_on(WebSearchCache::open(p, ttl)),
                None => rt.block_on(WebSearchCache::open_memory(ttl)),
            };
            Some(Arc::new(opened.map_err(|e| e.to_string())?))
        }
    };
    Ok(instance_state(&plan, cache))
}

fn configure(p: &mut WebSearchPlugin, file: WebSearchConfigFile) -> Result<(), ConfigError> {
    validate_config(&file)?;
    let mut built = Vec::new();
    for inst in &file.instances {
        let b = build(inst);
        let failed = b.is_err();
        built.push(b);
        if failed {
            break;
        }
    }
    p.on_configure(file, built)
}

fn no_args() -> ToolArgs {
    ToolArgs { instance: None, search: Err("unused".into()) }
}

#[test]
fn empty_instances_yields_empty_state() {
    let mut p = WebSearchPlugin::new();
    configure(&mut p, WebSearchConfigFile::default()).unwrap();
    assert_eq!(p.instance_count(), 0);
    assert_eq!(p.agent_count(), 0);
    assert_eq!(p.shared_count(), 0);
}

#[test]
fn single_shared_instance() {
    let mut p = WebSearchPlugin::new();
    configure(&mut p, WebSearchConfigFile {
        instances: vec![brave_only("default", None)],
    })
    .unwrap();
    assert_eq!(p.instance_count(), 1);
    assert_eq!(p.shared_count(), 1);
    assert!(p.router_for("default").is_ok());
}

#[test]
fn single_private_instance() {
    let mut p = WebSearchPlugin::new();
    configure(&mut p, WebSearchConfigFile {
        instances: vec![brave_only("ana", Some("ana"))],
    })
    .unwrap();
    assert_eq!(p.instance_count(), 1);
    assert_eq!(p.agent_count(), 1);
    assert_eq!(p.shared_count(), 0);
    let listing = p.instances_for_agent("ana");
    assert_eq!(listing, vec!["ana"]);
}

#[test]
fn multi_private_one_agent() {
    let mut p = WebSearchPlugin::new();
    configure(&mut p, WebSearchConfigFile {
        instances: vec![
            brave_only("research", Some("ana")),
            brave_only("news", Some("ana")),
        ],
    })
    .unwrap();
    assert_eq!(p.instance_count(), 2);
    let listing = p.instances_for_agent("ana");
    assert_eq!(listing, vec!["research", "news"]);
    assert_eq!(
        p.resolve_instance(&no_args(), "ana").unwrap(),
        "research",
        "default = first declared"
    );
}

#[test]
fn mixed_shared_and_private() {
    let mut p = WebSearchPlugin::new();
    configure(&mut p, WebSearchConfigFile {
        instances: vec![
            brave_only("default", None),
            brave_only("ana_research", Some("ana")),
        ],
    })
    .unwrap();
    assert_eq!(p.shared_count(), 1);
    assert_eq!(p.agent_count(), 1);
    // ana → private wins.
    assert_eq!(p.resolve_instance(&no_args(), "ana").unwrap(), "ana_research");
    // bob (no private) → shared.
    assert_eq!(p.resolve_instance(&no_args(), "bob").unwrap(), "default");
}

#[test]
fn full_replace_drops_old_state() {
    let mut p = WebSearchPlugin::new();
    configure(&mut p, WebSearchConfigFile {
        instances: vec![
            brave_only("a", Some("ana")),
            brave_only("b", Some("bob")),
            brave_only("c", None),
        ],
    })
    .unwrap();
    assert_eq!(p.instance_count(), 3);
    configure(&mut p, WebSearchConfigFile {
        instances: vec![brave_only("solo", None)],
    })
    .unwrap();
    assert_eq!(p.instance_count(), 1);
    assert_eq!(p.shared_count(), 1);
    assert_eq!(p.agent_count(), 0);
    assert!(p.router_for("a").is_err());
    assert!(p.router_for("solo").is_ok());
}

#[test]
fn on_configure_empty_yields_empty_state() {
    let mut p = WebSearchPlugin::new();
    configure(&mut p, WebSearchConfigFile::default()).unwrap();
    assert_eq!(p.instance_count(), 0);
    assert_eq!(p.agent_count(), 0);
    assert_eq!(p.shared_count(), 0);
}

#[test]
fn on_configure_single_shared_instance() {
    let mut p = WebSearchPlugin::new();
    configure(&mut p, WebSearchConfigFile {
        instances: vec![brave_only("default", None)],
    })
    .unwrap();
    assert_eq!(p.instance_count(), 1);
    assert_eq!(p.shared_count(), 1);
    assert_eq!(p.agent_count(), 0);
}

#[test]
fn on_configure_multi_private_for_one_agent() {
    let mut p = WebSearchPlugin::new();
    configure(&mut p, WebSearchConfigFile {
        instances: vec![
            brave_only("research", Some("ana")),
            brave_only("news", Some("ana")),
        ],
    })
    .unwrap();
    assert_eq!(p.instance_count(), 2);
    assert_eq!(p.shared_count(), 0);
    let ana_list = p.instances_for_agent("ana");
    assert_eq!(ana_list, vec!["research", "news"]);
}

#[test]
fn on_configure_mixed_shared_and_private() {
    let mut p = WebSearchPlugin::new();
    configure(&mut p, WebSearchConfigFile {
        instances: vec![
            brave_only("default", None),
            brave_only("ana_research", Some("ana")),
        ],
    })
    .unwrap();
    assert_eq!(p.instance_count(), 2);
    assert_eq!(p.shared_count(), 1);
    assert_eq!(p.agent_count(), 1);
}

#[test]
fn on_configure_full_replace_drops_old_instances() {
    let mut p = WebSearchPlugin::new();
    configure(&mut p, WebSearchConfigFile {
        instances: vec![
            brave_only("a", Some("ana")),
            brave_only("b", Some("bob")),
        ],
    })
    .unwrap();
    assert_eq!(p.instance_count(), 2);
    configure(&mut p, WebSearchConfigFile {
        instances: vec![brave_only("c", None)],
    })
    .unwrap();
    assert_eq!(p.instance_count(), 1);
    assert!(p.router_for("a").is_err());
    assert!(p.router_for("c").is_ok());
    assert_eq!(p.agent_count(), 0);
    assert_eq!(p.shared_count(), 1);
}

#[test]
fn on_configure_rejects_duplicate_instance_ids() {
    let mut p = WebSearchPlugin::new();
    let err = configure(&mut p, WebSearchConfigFile {
        instances: vec![
            brave_only("default", None),
            brave_only("default", Some("ana")),
        ],
    })
    .unwrap_err();
    assert!(err.message().contains("duplicate instance id"));
}

#[test]
fn on_configure_rejects_cache_path_collision() {
    let shared_cache = "/tmp/web-search-test/shared.db".to_string();
    let mut p = WebSearchPlugin::new();
    let mut a = brave_only("a", None);
    let mut b = brave_only("b", None);
    a.cache = CacheConfig {
        enabled: true,
        path: Some(shared_cache.clone()),
        ttl_secs: 600,
    };
    b.cache = CacheConfig {
        enabled: true,
        path: Some(shared_cache),
        ttl_secs: 600,
    };
    let err = configure(&mut p, WebSearchConfigFile {
        instances: vec![a, b],
    })
    .unwrap_err();
    assert!(err.message().contains("collides"));
}

#[test]
fn refused_configuration_keeps_previous_state() {
    let mut p = WebSearchPlugin::new();
    configure(&mut p, WebSearchConfigFile {
        instances: vec![brave_only("keep", None)],
    })
    .unwrap();
    let err = configure(&mut p, WebSearchConfigFile {
        instances: vec![
            brave_only("x", None),
            brave_only("x", None),
        ],
    })
    .unwrap_err();
    assert!(matches!(err, ConfigError::DuplicateInstanceId { .. }));
    assert_eq!(p.instance_count(), 1);
    assert!(p.router_for("keep").is_ok());
}

#[test]
fn instance_without_providers_fails_to_build() {
    let mut p = WebSearchPlugin::new();
    let mut inst = brave_only("empty", None);
    inst.providers = ProvidersConfig::default();
    let err = configure(&mut p, WebSearchConfigFile { instances: vec![inst] }).unwrap_err();
    match &err {
        ConfigError::Build { id, cause } => {
            assert_eq!(id, "empty");
            assert!(cause.contains("declares no providers"));
        }
        other => panic!("unexpected error {other:?}"),
    }
    assert_eq!(err.message(), "building router for instance `empty`");
    assert_eq!(p.instance_count(), 0);
}

#[test]
fn unreadable_key_file_fails_the_build() {
    let mut p = WebSearchPlugin::new();
    let mut inst = brave_only("k", None);
    inst.providers.brave.as_mut().unwrap().api_key_path = Some("missing.txt".to_string());
    let err = configure(&mut p, WebSearchConfigFile { instances: vec![inst] }).unwrap_err();
    assert!(matches!(err, ConfigError::Build { .. }));
}

#[test]
fn blank_key_file_leaves_only_free_providers() {
    let entry = ProviderEntry {
        api_key_path: Some("blank.txt".to_string()),
        timeout_ms: 8000,
    };
    let inst = WebSearchInstance {
        id: "free".into(),
        agent_id: None,
        providers: ProvidersConfig {
            brave: Some(entry),
            duckduckgo: Some(ProviderEntry { api_key_path: None, timeout_ms: 12000 }),
            ..Default::default()
        },
        cache: CacheConfig { enabled: false, path: None, ttl_secs: 0 },
        default_order: vec![],
    };
    let brave = read_key(&inst.providers.brave).unwrap();
    assert!(brave.is_none());
    let plan = plan_instance(&inst, brave, None).unwrap();
    assert_eq!(plan.providers.len(), 1);
    assert!(matches!(plan.providers[0], ProviderSpec::DuckDuckGo { timeout_ms: 12000 }));
}

#[test]
fn search_args_type_is_constructible() {
    let a = SearchArgs {
        query: "q".into(),
        count: None,
        provider: None,
        freshness: None,
        country: None,
        language: None,
        expand: false,
    };
    assert_eq!(a.query, "q");
}

fn with_cache(mut inst: WebSearchInstance, enabled: bool, path: &str) -> WebSearchInstance {
    inst.cache = CacheConfig {
        enabled,
        path: Some(path.to_string()),
        ttl_secs: 600,
    };
    inst
}

#[test]
fn path_shared_with_disabled_cache_is_no_collision() {
    let file = WebSearchConfigFile {
        instances: vec![
            with_cache(brave_only("a", None), true, "/tmp/web-search-test/one.db"),
            with_cache(brave_only("b", None), false, "/tmp/web-search-test/one.db"),
        ],
    };
    assert!(validate_config(&file).is_ok());
}

#[test]
fn equivalent_cache_paths_collide() {
    let file = WebSearchConfigFile {
        instances: vec![
            with_cache(brave_only("a", None), true, "/tmp/web-search-test/x/one.db"),
            with_cache(brave_only("b", None), true, "/tmp/web-search-test//x/one.db"),
        ],
    };
    let err = validate_config(&file).unwrap_err();
    assert_eq!(
        err.message(),
        "instance `b` cache.path `/tmp/web-search-test//x/one.db` collides with another instance"
    );
}

#[test]
fn same_file_gives_same_state_whatever_came_before() {
    let file = || WebSearchConfigFile {
        instances: vec![
            brave_only("a", Some("ana")),
            brave_only("b", None),
            brave_only("c", Some("ana")),
        ],
    };
    let mut fresh = WebSearchPlugin::new();
    configure(&mut fresh, file()).unwrap();
    let mut reused = WebSearchPlugin::new();
    configure(&mut reused, WebSearchConfigFile {
        instances: vec![brave_only("old", Some("bob")), brave_only("a", None)],
    })
    .unwrap();
    configure(&mut reused, file()).unwrap();
    configure(&mut reused, file()).unwrap();
    let (x, y) = (fresh.admin_list_instances(), reused.admin_list_instances());
    assert_eq!(x.instances, y.instances);
    assert_eq!(x.shared, y.shared);
    assert_eq!(x.by_agent, y.by_agent);
    assert_eq!(fresh.agent_count(), reused.agent_count());
    assert_eq!(reused.instances_for_agent("ana"), vec!["a", "c"]);
    assert!(reused.router_for("old").is_err());
}
