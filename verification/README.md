# nexo-plugin-web-search

Multi-provider web search (Brave / Tavily / DuckDuckGo / Perplexity) tool
plugin for Nexo agents, as a subprocess speaking JSON-RPC on stdio.

Operators declare search profiles in `web-search.yaml::instances[]`; an
instance without `agent_id` is shared, one with `agent_id` is private to
that agent. A `web_search` call resolves its instance from the explicit
`instance` argument, else the agent's first private profile, else the
first shared one. A call that names no provider (neither in its
arguments nor in the binding's policy) tries the instance's
`default_order` in turn, keeping only providers the instance has, until
one search succeeds; an empty order leaves the router's own order.

## Layout

- `src/` — the library, verified with Verus:
  - `config.rs` — the operator file's shape, defaults, pre-flight
    validation (unique ids, no shared cache file);
  - `plugin.rs` — the plugin state (instance, agent and shared tables),
    configuration as a full replace, instance resolution;
  - `invoke.rs` — the decisions of a tool call (policy gate, resolution,
    policy defaults, provider pick, each step of the fallback search)
    and the error categories;
  - `instance_plan.rs` — which providers and cache an instance gets,
    its fallback order, and the router built over those providers;
  - `admin.rs` — admin commands and the metrics scrape;
  - `env_config.rs`, `cli.rs`, `tools.rs`, `manifest.rs` — environment,
    command line, tool descriptor, bundled manifest;
  - `tables.rs`, `backend.rs`, `text.rs` — the outside tables and search
    machinery, and string helpers;
  - `laws.rs` — properties of the plugin as a whole.
- `app/` — the binary: environment and file reading, YAML/JSON
  conversion, key files, cache opening, running the router's searches
  as the library's search steps direct, the broker subscribers and the
  JSON-RPC loop.
- `tests/` — tests of the library.
