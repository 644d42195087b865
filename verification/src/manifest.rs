//! The bundled `nexo-plugin.toml`: what the daemon's discovery walker
//! reads from `--print-manifest` and the handshake echoes.
use vstd::prelude::*;

verus! {

pub const MANIFEST: &'static str = r#"manifest_version = 2

[plugin]
id = "web_search"
version = "0.1.0"
name = "Web Search"
description = "Multi-provider web search (Brave / Tavily / DuckDuckGo / Perplexity) tool plugin for Nexo agents."
min_nexo_version = ">=0.1.19"

[plugin.entrypoint]
command = "nexo-plugin-web-search"

[plugin.requires]
nexo_capabilities = ["broker"]

[plugin.capabilities.broker]
subscribe = [
    "plugin.outbound.web_search",
    "plugin.outbound.web_search.>",
    "plugin.web_search.admin.>",
    "plugin.web_search.metrics.scrape",
]

[plugin.tools]
expose = ["web_search"]

[plugin.extends]
tools = ["web_search"]

[plugin.admin]
method_prefix = "nexo/admin/web_search/"
broker_topic_prefix = "plugin.web_search.admin"

[plugin.metrics]
prometheus = true
broker_topic_prefix = "plugin.web_search"

[plugin.config_schema]
shape = "object"
schema = '''
{
  "type": "object",
  "properties": {
    "instances": {
      "type": "array",
      "items": {
        "type": "object",
        "required": ["id"],
        "properties": {
          "id": { "type": "string" },
          "agent_id": { "type": "string" },
          "providers": {
            "type": "object",
            "properties": {
              "brave": { "type": "object" },
              "tavily": { "type": "object" },
              "perplexity": { "type": "object" },
              "duckduckgo": { "type": "object" }
            }
          },
          "cache": {
            "type": "object",
            "properties": {
              "enabled": { "type": "boolean" },
              "path": { "type": "string" },
              "ttl_secs": { "type": "integer", "minimum": 0 }
            }
          },
          "default_order": { "type": "array", "items": { "type": "string" } }
        }
      }
    }
  }
}
'''

[plugin.credentials_schema]
enabled = false

[plugin.dashboard.layout]
kind = "workspace_walk"
subdir = "web_search"

[plugin.dashboard.auth_check]
kind = "session_dir_files"
candidates = ["brave_api_key.txt", "tavily_api_key.txt", "perplexity_api_key.txt"]
"#;

} // verus!
