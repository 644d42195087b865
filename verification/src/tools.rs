//! The `web_search` tool descriptor advertised at handshake.
use vstd::prelude::*;

verus! {

/// A tool the plugin offers: its name, its description for the model,
/// and its input schema as JSON text.
#[derive(Debug, Clone)]
pub struct ToolDef {
    pub name: String,
    pub description: String,
    pub input_schema: String,
}

pub const TOOL_NAME: &'static str = "web_search";

pub const TOOL_DESCRIPTION: &'static str = "Search the web. Returns titles, URLs, and snippets from a configured provider (Brave / Tavily / DuckDuckGo / Perplexity). Multi-instance: when the operator declares multiple search profiles in `web-search.yaml::instances[]`, pass the optional `instance:` arg to target a specific profile; absent uses the calling agent's default. Provider can be overridden per call via `provider:`.";

pub const INPUT_SCHEMA: &'static str = r#"{
  "type": "object",
  "properties": {
    "query":     { "type": "string",  "description": "Search query string." },
    "count":     { "type": "integer", "minimum": 1, "maximum": 10, "description": "Number of results (1-10). Default from per-binding policy." },
    "instance":  { "type": "string",  "description": "Optional search-profile id declared in web-search.yaml::instances[]. Absent → agent's default profile." },
    "provider":  { "type": "string",  "enum": ["brave","tavily","duckduckgo","perplexity"], "description": "Override provider for this call." },
    "freshness": { "type": "string",  "enum": ["day","week","month","year"], "description": "Time window filter." },
    "country":   { "type": "string",  "description": "ISO-3166 alpha-2 country code." },
    "language":  { "type": "string",  "description": "ISO-639-1 language code." },
    "expand":    { "type": "boolean", "description": "Reserved for v0.2.0; accepted but no-op in v0.1.0." }
  },
  "required": ["query"]
}"#;

/// The tools advertised at handshake: `web_search` alone.
pub fn tool_defs() -> (r: Vec<ToolDef>)
    ensures
        r@.len() == 1,
        r@[0].name@ == TOOL_NAME@,
        r@[0].description@ == TOOL_DESCRIPTION@,
        r@[0].input_schema@ == INPUT_SCHEMA@,
{
    let mut defs: Vec<ToolDef> = Vec::new();
    defs.push(
        ToolDef {
            name: String::from_str(TOOL_NAME),
            description: String::from_str(TOOL_DESCRIPTION),
            input_schema: String::from_str(INPUT_SCHEMA),
        },
    );
    defs
}

} // verus!
