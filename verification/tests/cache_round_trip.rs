use std::sync::Arc;

use nexo_plugin_web_search::admin::{cache_rows, CacheCommand, CacheProbe};
use nexo_plugin_web_search::backend::InstanceState;
use nexo_plugin_web_search::config::{
    validate_config, CacheConfig, ConfigError, ProviderEntry, ProvidersConfig, WebSearchConfigFile,
    WebSearchInstance,
};
use nexo_plugin_web_search::instance_plan::{
    api_key_from_contents, instance_state, key_file, plan_instance,
};
use nexo_plugin_web_search::invoke::{
    classify_tool_error, BindingPolicy, Freshness, InvokeError, SearchArgs, SearchStep, ToolArgs,
    ToolErrorKind,
};
use nexo_plugin_web_search::plugin::WebSearchPlugin;
use nexo_web_search::WebSearchCache;

// Key files are stood in for by their contents: every `*_brave.txt`
// holds `test-brave-key`, `blank.txt` only white space, and no other file
// exists.
fn key_file_contents(path: &str) -> Result<String, String> {
    if path.ends_with("_brave.txt") {
        Ok("test-brave-key\n".to_string())
    } else if path == "blank.txt" {
        Ok("  \n\t ".to_string())
    } else {
        Err(format!("reading API key file at {path}"))
    }
}

fn brave_only(id: &str, agent: Option<&str>) -> WebSearchInstance {
    let key_path = format!("{id}_brave.txt");
    WebSearchInstance {
        id: id.into(),
        agent_id: agent.map(String::from),
        providers: ProvidersConfig {
            brave: Some(ProviderEntry {
                api_key_path: Some(key_path),
                timeout_ms: 8000,
            }),
            ..Default::default()
        },
        cache: CacheConfig {
            enabled: false,
            path: None,
            ttl_secs: 0,
        },
        default_order: vec!["brave".into()],
    }
}

fn read_key(entry: &Option<ProviderEntry>) -> Result<Option<String>, String> {
    match key_file(entry) {
        None => Ok(None),
        Some(path) => key_file_contents(&path).map(|raw| api_key_from_contents(&raw)),
    }
}

fn build(inst: &WebSearchInstance) -> Result<Arc<InstanceState>, String> {
    let brave = read_key(&inst.providers.brave)?;
    let tavily = read_key(&inst.providers.tavily)?;
    let plan = plan_instance(inst, brave, tavily).map_err(|e| e.message())?;
    let cache = match &plan.cache {
        None => None,
        Some(spec) => {
            let rt = tokio::runtime::Builder::new_current_thread().enable_all().build().unwrap();
            let ttl = std::time::Duration::from_secs(spec.ttl_secs);
            let opened = match &spec.path {
                Some(p) => rt.block_on(WebSearchCache::open(p, ttl)),
                None => rt.block_on(WebSearchCache::open_memory(ttl)),
            };
            Some(Arc::new(opened.map_err(|e| e.to_string())?))
        }
    };
    Ok(instance_state(&plan, cache))
}

fn configure(p: &mut WebSearchPlugin, file: WebSearchConfigFile) -> Result<(), ConfigError> {
    validate_config(&file)?;
    let mut built = Vec::new();
    for inst in &file.instances {
        let b = build(inst);
        let failed = b.is_err();
        built.push(b);
        if failed {
            break;
        }
    }
    p.on_configure(file, built)
}

fn search_args(a: nexo_web_search::WebSearchArgs) -> SearchArgs {
    SearchArgs {
        query: a.query,
        count: a.count,
        provider: a.provider,
        freshness: a.freshness.map(|f| match f {
            nexo_web_search::Freshness::Day => Freshness::Day,
            nexo_web_search::Freshness::Week => Freshness::Week,
            nexo_web_search::Freshness::Month => Freshness::Month,
            nexo_web_search::Freshness::Year => Freshness::Year,
        }),
        country: a.country,
        language: a.language,
        expand: a.expand,
    }
}

fn web_search_args(a: &SearchArgs) -> nexo_web_search::WebSearchArgs {
    nexo_web_search::WebSearchArgs {
        query: a.query.clone(),
        count: a.count,
        provider: a.provider.clone(),
        freshness: a.freshness.map(|f| match f {
            Freshness::Day => nexo_web_search::Freshness::Day,
            Freshness::Week => nexo_web_search::Freshness::Week,
            Freshness::Month => nexo_web_search::Freshness::Month,
            Freshness::Year => nexo_web_search::Freshness::Year,
        }),
        country: a.country.clone(),
        language: a.language.clone(),
        expand: a.expand,
    }
}

// The call's arguments as the daemon sends them, in JSON text.
fn tool_args(json: &str) -> ToolArgs {
    let v: serde_json::Value = serde_json::from_str(json).unwrap();
    let instance = v.get("instance").and_then(|x| x.as_str()).map(String::from);
    let search = serde_json::from_value::<nexo_web_search::WebSearchArgs>(v)
        .map(search_args)
        .map_err(|e| e.to_string());
    ToolArgs { instance, search }
}

fn policy(json: &str) -> BindingPolicy {
    let v: serde_json::Value = serde_json::from_str(json).unwrap();
    BindingPolicy {
        enabled: v.get("enabled").and_then(|x| x.as_bool()),
        default_count: v.get("default_count").and_then(|x| x.as_u64()),
        expand_default: v.get("expand_default").and_then(|x| x.as_bool()),
        provider: v.get("provider").and_then(|x| x.as_str()).map(String::from),
    }
}

// Runs the call to the end the way the binary does: decide, then search.
fn invoke(
    p: &WebSearchPlugin,
    tool: &str,
    args: &str,
    agent: &str,
    pol: Option<&str>,
) -> Result<nexo_web_search::WebSearchResult, InvokeError> {
    let pol = pol.map(policy);
    let plan = p.invoke_outbound_tool(tool, tool_args(args), agent, pol.as_ref())?;
    let rt = tokio::runtime::Builder::new_current_thread().enable_all().build().unwrap();
    let mut tried: usize = 0;
    let mut last = None;
    loop {
        match plan.search_step(tried, last.take()) {
            SearchStep::Done(result) => return Ok(result),
            SearchStep::Failed(e) => return Err(e),
            SearchStep::Ask(pick) => {
                tried += 1;
                let outcome = rt.block_on(plan.router.search(web_search_args(&plan.args), pick.as_deref()));
                last = Some(outcome.map_err(|e| e.to_string()));
            }
        }
    }
}

fn boot_shared() -> WebSearchPlugin {
    let mut p = WebSearchPlugin::new();
    configure(&mut p, WebSearchConfigFile {
        instances: vec![brave_only("default", None)],
    })
    .unwrap();
    p
}


fn brave_with_cache(id: &str, enabled: bool, ttl_secs: u64) -> WebSearchInstance {
    let mut inst = brave_only(id, None);
    inst.cache = CacheConfig {
        enabled,
        path: None, // in-memory
        ttl_secs,
    };
    inst
}

#[test]
fn cache_enabled_with_in_memory_path_builds_router() {
    let mut p = WebSearchPlugin::new();
    configure(&mut p, WebSearchConfigFile {
        instances: vec![brave_with_cache("default", true, 3600)],
    })
    .unwrap();
    assert!(p.router_for("default").is_ok());
}

#[test]
fn cache_disabled_still_builds_router() {
    let mut p = WebSearchPlugin::new();
    configure(&mut p, WebSearchConfigFile {
        instances: vec![brave_with_cache("default", false, 0)],
    })
    .unwrap();
    assert!(p.router_for("default").is_ok());
}

#[test]
fn cache_with_zero_ttl_still_opens_minimum_one_second() {
    // Router enforces TTL >= 1s via `max(1)`; opening with 0
    // succeeds with the floor.
    let mut p = WebSearchPlugin::new();
    configure(&mut p, WebSearchConfigFile {
        instances: vec![brave_with_cache("default", true, 0)],
    })
    .unwrap();
    assert!(p.router_for("default").is_ok());
}

#[test]
fn zero_ttl_is_planned_as_one_second() {
    let inst = brave_with_cache("default", true, 0);
    let plan = plan_instance(&inst, Some("k".into()), None).unwrap();
    let cache = plan.cache.unwrap();
    assert_eq!(cache.ttl_secs, 1);
    assert!(cache.path.is_none());
}

#[test]
fn disabled_cache_is_not_planned() {
    let inst = brave_with_cache("default", false, 600);
    let plan = plan_instance(&inst, Some("k".into()), None).unwrap();
    assert!(plan.cache.is_none());
}

#[test]
fn cache_probe_tells_disabled_from_enabled() {
    let mut p = WebSearchPlugin::new();
    configure(&mut p, WebSearchConfigFile {
        instances: vec![brave_with_cache("on", true, 60), brave_with_cache("off", false, 60)],
    })
    .unwrap();
    assert!(matches!(p.cache_probe("on"), CacheProbe::Enabled(_)));
    assert!(matches!(p.cache_probe("off"), CacheProbe::Disabled));
    assert!(matches!(p.cache_probe("gone"), CacheProbe::NotConfigured));
    let targets = p.cache_targets(None);
    let mut names: Vec<&str> = targets.iter().map(|(n, _)| n.as_str()).collect();
    names.sort();
    assert_eq!(names, vec!["off", "on"]);
    let one = p.cache_targets(Some("gone"));
    assert_eq!(one.len(), 1);
    assert_eq!(one[0].0, "gone");
    assert!(matches!(one[0].1, CacheProbe::NotConfigured));
}

// Asks each target's cache on `rt` (where the caches were opened), then
// lets the library turn the answers into rows, as the binary does.
fn run_cache_command(
    rt: &tokio::runtime::Runtime,
    command: CacheCommand,
    targets: &Vec<(String, CacheProbe)>,
) -> Vec<nexo_plugin_web_search::admin::CacheRow> {
    let answers: Vec<Option<Result<u64, String>>> = targets
        .iter()
        .map(|(_, probe)| match probe {
            CacheProbe::Enabled(cache) => Some(
                match command {
                    CacheCommand::Stats => rt.block_on(cache.stats()).map(|s| s.entries),
                    CacheCommand::Clear => rt.block_on(cache.clear()),
                }
                .map_err(|e| e.to_string()),
            ),
            _ => None,
        })
        .collect();
    cache_rows(command, targets, answers)
}

fn targets_with_open_cache(rt: &tokio::runtime::Runtime) -> Vec<(String, CacheProbe)> {
    let cache = rt
        .block_on(WebSearchCache::open_memory(std::time::Duration::from_secs(60)))
        .unwrap();
    vec![
        ("on".to_string(), CacheProbe::Enabled(Arc::new(cache))),
        ("off".to_string(), CacheProbe::Disabled),
        ("gone".to_string(), CacheProbe::NotConfigured),
    ]
}

#[test]
fn cache_stats_reports_each_target() {
    let rt = tokio::runtime::Builder::new_current_thread().enable_all().build().unwrap();
    let targets = targets_with_open_cache(&rt);
    let rows = run_cache_command(&rt, CacheCommand::Stats, &targets);
    assert_eq!(rows.len(), 3);
    assert_eq!(rows[0].instance, "on");
    assert!(rows[0].ok);
    assert_eq!(rows[0].entries, Some(0));
    assert_eq!(rows[0].cache_enabled, None);
    assert_eq!(rows[0].rows_deleted, None);
    assert_eq!(rows[1].instance, "off");
    assert!(rows[1].ok);
    assert_eq!(rows[1].cache_enabled, Some(false));
    assert_eq!(rows[1].entries, None);
    assert_eq!(rows[2].instance, "gone");
    assert!(!rows[2].ok);
    assert_eq!(rows[2].error.as_deref(), Some("instance not configured"));
}

#[test]
fn cache_clear_reports_each_target() {
    let rt = tokio::runtime::Builder::new_current_thread().enable_all().build().unwrap();
    let targets = targets_with_open_cache(&rt);
    let rows = run_cache_command(&rt, CacheCommand::Clear, &targets);
    assert_eq!(rows.len(), 3);
    assert!(rows[0].ok);
    assert_eq!(rows[0].rows_deleted, Some(0));
    assert_eq!(rows[0].entries, None);
    assert!(rows[1].ok);
    assert_eq!(rows[1].cache_enabled, Some(false));
    assert_eq!(rows[1].rows_deleted, Some(0));
    assert!(!rows[2].ok);
    assert_eq!(rows[2].error.as_deref(), Some("instance not configured"));
}
