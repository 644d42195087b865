use std::sync::Arc;

use nexo_plugin_web_search::backend::InstanceState;
use nexo_plugin_web_search::config::{
    validate_config, CacheConfig, ConfigError, ProviderEntry, ProvidersConfig, WebSearchConfigFile,
    WebSearchInstance,
};
use nexo_plugin_web_search::instance_plan::{
    api_key_from_contents, instance_state, key_file, plan_instance,
};
use nexo_plugin_web_search::invoke::{
    classify_tool_error, BindingPolicy, Freshness, InvokeError, SearchArgs, SearchStep, ToolArgs,
    ToolErrorKind,
};
use nexo_plugin_web_search::plugin::WebSearchPlugin;
use nexo_web_search::WebSearchCache;

// Key files are stood in for by their contents: every `*_brave.txt`
// holds `test-brave-key`, `blank.txt` only white space, and no other file
// exists.
fn key_file_contents(path: &str) -> Result<String, String> {
    if path.ends_with("_brave.txt") {
        Ok("test-brave-key\n".to_string())
    } else if path == "blank.txt" {
        Ok("  \n\t ".to_string())
    } else {
        Err(format!("reading API key file at {path}"))
    }
}

fn brave_only(id: &str, agent: Option<&str>) -> WebSearchInstance {
    let key_path = format!("{id}_brave.txt");
    WebSearchInstance {
        id: id.into(),
        agent_id: agent.map(String::from),
        providers: ProvidersConfig {
            brave: Some(ProviderEntry {
                api_key_path: Some(key_path),
                timeout_ms: 8000,
            }),
            ..Default::default()
        },
        cache: CacheConfig {
            enabled: false,
            path: None,
            ttl_secs: 0,
        },
        default_order: vec!["brave".into()],
    }
}

fn read_key(entry: &Option<ProviderEntry>) -> Result<Option<String>, String> {
    match key_file(entry) {
        None => Ok(None),
        Some(path) => key_file_contents(&path).map(|raw| api_key_from_contents(&raw)),
    }
}

fn build(inst: &WebSearchInstance) -> Result<Arc<InstanceState>, String> {
    let brave = read_key(&inst.providers.brave)?;
    let tavily = read_key(&inst.providers.tavily)?;
    let plan = plan_instance(inst, brave, tavily).map_err(|e| e.message())?;
    let cache = match &plan.cache {
        None => None,
        Some(spec) => {
            let rt = tokio::runtime::Builder::new_current_thread().enable_all().build().unwrap();
            let ttl = std::time::Duration::from_secs(spec.ttl_secs);
            let opened = match &spec.path {
                Some(p) => rt.block_on(WebSearchCache::open(p, ttl)),
                None => rt.block_on(WebSearchCache::open_memory(ttl)),
            };
            Some(Arc::new(opened.map_err(|e| e.to_string())?))
        }
    };
    Ok(instance_state(&plan, cache))
}

fn configure(p: &mut WebSearchPlugin, file: WebSearchConfigFile) -> Result<(), ConfigError> {
    validate_config(&file)?;
    let mut built = Vec::new();
    for inst in &file.instances {
        let b = build(inst);
        let failed = b.is_err();
        built.push(b);
        if failed {
            break;
        }
    }
    p.on_configure(file, built)
}

fn search_args(a: nexo_web_search::WebSearchArgs) -> SearchArgs {
    SearchArgs {
        query: a.query,
        count: a.count,
        provider: a.provider,
        freshness: a.freshness.map(|f| match f {
            nexo_web_search::Freshness::Day => Freshness::Day,
            nexo_web_search::Freshness::Week => Freshness::Week,
            nexo_web_search::Freshness::Month => Freshness::Month,
            nexo_web_search::Freshness::Year => Freshness::Year,
        }),
        country: a.country,
        language: a.language,
        expand: a.expand,
    }
}

fn web_search_args(a: &SearchArgs) -> nexo_web_search::WebSearchArgs {
    nexo_web_search::WebSearchArgs {
        query: a.query.clone(),
        count: a.count,
        provider: a.provider.clone(),
        freshness: a.freshness.map(|f| match f {
            Freshness::Day => nexo_web_search::Freshness::Day,
            Freshness::Week => nexo_web_search::Freshness::Week,
            Freshness::Month => nexo_web_search::Freshness::Month,
            Freshness::Year => nexo_web_search::Freshness::Year,
        }),
        country: a.country.clone(),
        language: a.language.clone(),
        expand: a.expand,
    }
}

// The call's arguments as the daemon sends them, in JSON text.
fn tool_args(json: &str) -> ToolArgs {
    let v: serde_json::Value = serde_json::from_str(json).unwrap();
    let instance = v.get("instance").and_then(|x| x.as_str()).map(String::from);
    let search = serde_json::from_value::<nexo_web_search::WebSearchArgs>(v)
        .map(search_args)
        .map_err(|e| e.to_string());
    ToolArgs { instance, search }
}

fn policy(json: &str) -> BindingPolicy {
    let v: serde_json::Value = serde_json::from_str(json).unwrap();
    BindingPolicy {
        enabled: v.get("enabled").and_then(|x| x.as_bool()),
        default_count: v.get("default_count").and_then(|x| x.as_u64()),
        expand_default: v.get("expand_default").and_then(|x| x.as_bool()),
        provider: v.get("provider").and_then(|x| x.as_str()).map(String::from),
    }
}

// Runs the call to the end the way the binary does: decide, then search.
fn invoke(
    p: &WebSearchPlugin,
    tool: &str,
    args: &str,
    agent: &str,
    pol: Option<&str>,
) -> Result<nexo_web_search::WebSearchResult, InvokeError> {
    let pol = pol.map(policy);
    let plan = p.invoke_outbound_tool(tool, tool_args(args), agent, pol.as_ref())?;
    let rt = tokio::runtime::Builder::new_current_thread().enable_all().build().unwrap();
    let mut tried: usize = 0;
    let mut last = None;
    loop {
        match plan.search_step(tried, last.take()) {
            SearchStep::Done(result) => return Ok(result),
            SearchStep::Failed(e) => return Err(e),
            SearchStep::Ask(pick) => {
                tried += 1;
                let outcome = rt.block_on(plan.router.search(web_search_args(&plan.args), pick.as_deref()));
                last = Some(outcome.map_err(|e| e.to_string()));
            }
        }
    }
}

fn boot_shared() -> WebSearchPlugin {
    let mut p = WebSearchPlugin::new();
    configure(&mut p, WebSearchConfigFile {
        instances: vec![brave_only("default", None)],
    })
    .unwrap();
    p
}


use nexo_plugin_web_search::admin::{
    cache_row, metrics_reply, metrics_scrape, provider_rows, ProviderStatus, unknown_method_error, AdminRequest, CacheCommand,
    CacheOutcome,
};

fn boot_two() -> WebSearchPlugin {
    let mut p = WebSearchPlugin::new();
    configure(&mut p, WebSearchConfigFile {
        instances: vec![brave_only("default", None), brave_only("ana_research", Some("ana"))],
    })
    .unwrap();
    p
}

#[test]
fn admin_bot_info_returns_metadata() {
    let p = boot_shared();
    let req = AdminRequest::from_method("nexo/admin/web_search/bot_info", None);
    assert!(matches!(req, AdminRequest::BotInfo));
    let info = p.bot_info();
    assert_eq!(info.plugin, "web_search");
    assert_eq!(info.configured_instances, 1);
    assert_eq!(info.shared_instances, 1);
}

#[test]
fn auto_discovery_admin_list_instances_returns_full_map() {
    let p = boot_shared();
    let req = AdminRequest::from_method("nexo/admin/web_search/list_instances", None);
    assert!(matches!(req, AdminRequest::ListInstances));
    let result = p.admin_list_instances();
    assert_eq!(result.instances[0], "default");
    assert_eq!(result.shared[0], "default");
}

#[test]
fn admin_unknown_method_returns_err() {
    let req = AdminRequest::from_method("nexo/admin/web_search/does_not_exist", None);
    match req {
        AdminRequest::Unknown { method } => {
            assert_eq!(
                unknown_method_error(&method),
                "unknown admin method: nexo/admin/web_search/does_not_exist"
            );
        }
        other => panic!("unexpected {other:?}"),
    }
}

#[test]
fn metrics_scrape_returns_prometheus_body() {
    let _p = boot_shared();
    let r = metrics_scrape();
    assert!(r.ok);
    // Body is empty of calls when none happened yet, but it is the
    // exposition text.
    assert!(r.body.contains("nexo_web_search_calls_total"));
}

#[test]
fn plugin_admin_list_instances_returns_full_map() {
    let p = boot_two();
    let listing = p.admin_list_instances();
    assert_eq!(listing.instances.len(), 2);
    assert_eq!(listing.shared[0], "default");
    let ana = listing.by_agent.iter().find(|(a, _)| a == "ana").unwrap();
    assert_eq!(ana.1[0], "ana_research");
}

#[test]
fn list_instances_sorts_ids() {
    let mut p = WebSearchPlugin::new();
    configure(&mut p, WebSearchConfigFile {
        instances: vec![
            brave_only("zeta", None),
            brave_only("alpha", Some("ana")),
            brave_only("Mid", None),
            brave_only("alphabet", None),
        ],
    })
    .unwrap();
    let listing = p.admin_list_instances();
    assert_eq!(listing.instances, vec!["Mid", "alpha", "alphabet", "zeta"]);
    assert_eq!(listing.shared, vec!["zeta", "Mid", "alphabet"]);
}

#[test]
fn cache_commands_carry_the_instance_param() {
    let req = AdminRequest::from_method("nexo/admin/web_search/cache_stats", Some("x".into()));
    assert!(matches!(req, AdminRequest::CacheStats { instance: Some(ref i) } if i == "x"));
    let req = AdminRequest::from_method("nexo/admin/web_search/cache_clear", None);
    assert!(matches!(req, AdminRequest::CacheClear { instance: None }));
    let req = AdminRequest::from_method("nexo/admin/web_search/provider_status", None);
    assert!(matches!(req, AdminRequest::ProviderStatus));
}

#[test]
fn provider_status_reports_each_instance() {
    let p = boot_two();
    let status = p.admin_provider_status();
    assert_eq!(status.len(), 2);
    for entry in &status {
        assert_eq!(entry.providers.len(), 1);
        assert_eq!(entry.providers[0].id, "brave");
        assert!(entry.providers[0].available);
    }
}

fn duckduckgo_only(id: &str) -> WebSearchInstance {
    WebSearchInstance {
        id: id.into(),
        agent_id: None,
        providers: ProvidersConfig {
            duckduckgo: Some(ProviderEntry {
                api_key_path: None,
                timeout_ms: 5000,
            }),
            ..Default::default()
        },
        cache: CacheConfig {
            enabled: false,
            path: None,
            ttl_secs: 0,
        },
        default_order: vec!["duckduckgo".into()],
    }
}

#[test]
fn provider_status_reads_each_instance_router() {
    let mut p = WebSearchPlugin::new();
    configure(&mut p, WebSearchConfigFile {
        instances: vec![brave_only("default", None), duckduckgo_only("scrape")],
    })
    .unwrap();
    let status = p.admin_provider_status();
    assert_eq!(status.len(), 2);
    let ids_of = |name: &str| -> Vec<String> {
        status
            .iter()
            .find(|e| e.instance == name)
            .unwrap()
            .providers
            .iter()
            .map(|s| s.id.clone())
            .collect()
    };
    assert_eq!(ids_of("default"), vec!["brave"]);
    assert_eq!(ids_of("scrape"), vec!["duckduckgo"]);
}

#[test]
fn provider_status_lists_several_providers_sorted() {
    let mut inst = brave_only("both", None);
    inst.providers.duckduckgo = Some(ProviderEntry { api_key_path: None, timeout_ms: 5000 });
    let mut p = WebSearchPlugin::new();
    configure(&mut p, WebSearchConfigFile { instances: vec![inst] }).unwrap();
    let status = p.admin_provider_status();
    let ids: Vec<&str> = status[0].providers.iter().map(|s| s.id.as_str()).collect();
    assert_eq!(ids, vec!["brave", "duckduckgo"]);
}

#[test]
fn provider_targets_pair_each_instance_with_its_router() {
    let p = boot_two();
    let targets = p.provider_targets();
    assert_eq!(targets.len(), 2);
    assert_ne!(targets[0].0, targets[1].0);
    for (id, router) in &targets {
        let own = p.router_for(id).ok().unwrap();
        assert!(Arc::ptr_eq(router, &own));
    }
}

#[test]
fn metrics_reply_carries_the_rendered_body() {
    let r = metrics_reply("# TYPE x counter\nx 1\n".to_string());
    assert!(r.ok);
    assert_eq!(r.body, "# TYPE x counter\nx 1\n");
}

#[test]
fn cache_row_for_unknown_instance_fails() {
    let row = cache_row(CacheCommand::Stats, "ghost".into(), CacheOutcome::NotConfigured);
    assert_eq!(row.instance, "ghost");
    assert!(!row.ok);
    assert_eq!(row.error.as_deref(), Some("instance not configured"));
    assert_eq!(row.cache_enabled, None);
    assert_eq!(row.entries, None);
    assert_eq!(row.rows_deleted, None);
}

#[test]
fn cache_row_for_disabled_cache() {
    let stats = cache_row(CacheCommand::Stats, "a".into(), CacheOutcome::Disabled);
    assert!(stats.ok);
    assert_eq!(stats.cache_enabled, Some(false));
    assert_eq!(stats.rows_deleted, None);
    assert_eq!(stats.error, None);
    let clear = cache_row(CacheCommand::Clear, "a".into(), CacheOutcome::Disabled);
    assert!(clear.ok);
    assert_eq!(clear.cache_enabled, Some(false));
    assert_eq!(clear.rows_deleted, Some(0));
}

#[test]
fn cache_row_reports_counts_per_command() {
    let stats = cache_row(CacheCommand::Stats, "a".into(), CacheOutcome::Counted(7));
    assert!(stats.ok);
    assert_eq!(stats.entries, Some(7));
    assert_eq!(stats.rows_deleted, None);
    assert_eq!(stats.cache_enabled, None);
    let clear = cache_row(CacheCommand::Clear, "a".into(), CacheOutcome::Counted(3));
    assert!(clear.ok);
    assert_eq!(clear.rows_deleted, Some(3));
    assert_eq!(clear.entries, None);
}

#[test]
fn cache_row_reports_cache_errors() {
    let row = cache_row(CacheCommand::Clear, "a".into(), CacheOutcome::Failed("disk full".into()));
    assert!(!row.ok);
    assert_eq!(row.error.as_deref(), Some("disk full"));
    assert_eq!(row.rows_deleted, None);
}

#[test]
fn provider_rows_pass_the_states_through() {
    let p = boot_two();
    let targets = p.provider_targets();
    let states: Vec<Vec<ProviderStatus>> = targets
        .iter()
        .map(|(id, _)| vec![ProviderStatus { id: format!("{id}-p"), available: false }])
        .collect();
    let rows = provider_rows(&targets, states);
    assert_eq!(rows.len(), 2);
    for (row, (id, _)) in rows.iter().zip(targets.iter()) {
        assert_eq!(&row.instance, id);
        assert_eq!(row.providers.len(), 1);
        assert_eq!(row.providers[0].id, format!("{id}-p"));
        assert!(!row.providers[0].available);
    }
}
