//! What the subprocess takes from its environment. The daemon's
//! discovery walker spawns the binary with:
//!
//!   * `NEXO_BROKER_URL`  — broker URL;
//!   * `NEXO_BROKER_KIND` — `nats` | `local` | `stdio_bridge`;
//!   * `NEXO_CONFIG_DIR`  — the operator config dir; the plugin reads
//!     `$NEXO_CONFIG_DIR/plugins/web-search.yaml`;
//!   * `NEXO_PLUGIN_WEB_SEARCH_CONFIG_PATH` — explicit override path.
//!
//! Reading the variables and the file happens at the edge; the choices
//! are made here.
use vstd::prelude::*;

use crate::config::WebSearchConfigFile;
use crate::text::{seq_starts_with, starts_with};

verus! {

/// The environment-derived configuration.
#[derive(Debug, Default)]
pub struct WebSearchEnvConfig {
    pub broker_url: String,
    pub broker_kind: String,
    /// The parsed operator file, when it exists.
    pub initial: Option<WebSearchConfigFile>,
    /// The operator file looked for.
    pub config_path: Option<String>,
}

/// A broker URL that points at NATS.
pub fn is_nats_url(url: &str) -> (r: bool)
    ensures
        r == seq_starts_with(url@, "nats://"@),
{
    starts_with(url, "nats://")
}

/// The broker kind: `NEXO_BROKER_KIND` when set, else `nats` for a
/// `nats://` URL and `local` otherwise.
pub fn broker_kind_for(broker_url: &str, kind_var: Option<String>) -> (r: String)
    ensures
        r@ == match kind_var {
            Some(k) => k@,
            None => if seq_starts_with(broker_url@, "nats://"@) {
                "nats"@
            } else {
                "local"@
            },
        },
{
    match kind_var {
        Some(k) => k,
        None => if is_nats_url(broker_url) {
            String::from_str("nats")
        } else {
            String::from_str("local")
        },
    }
}

/// Where the operator file is looked for.
#[derive(Debug, Clone, PartialEq, Eq)]
pub enum ConfigPathSource {
    /// `NEXO_PLUGIN_WEB_SEARCH_CONFIG_PATH`, as given.
    Override(String),
    /// `CONFIG_FILE_IN_DIR` under `NEXO_CONFIG_DIR`.
    ConfigDir(String),
    /// `DEFAULT_CONFIG_PATH`.
    Default,
}

/// The operator file's place under the config dir.
pub const CONFIG_FILE_IN_DIR: &'static str = "plugins/web-search.yaml";

/// The operator file when neither variable is set.
pub const DEFAULT_CONFIG_PATH: &'static str = "./config/plugins/web-search.yaml";

/// Pick the operator file: the override variable when it is set and not
/// empty, else the config dir when it is set and not empty, else the
/// default path.
pub fn resolve_config_path(override_var: Option<String>, config_dir_var: Option<String>) -> (r:
    ConfigPathSource)
    ensures
        match override_var {
            Some(p) if p@.len() > 0 => r matches ConfigPathSource::Override(q) && q@ == p@,
            _ => match config_dir_var {
                Some(d) if d@.len() > 0 => r matches ConfigPathSource::ConfigDir(q) && q@ == d@,
                _ => r is Default,
            },
        },
{
    if let Some(p) = override_var {
        if p.as_str().unicode_len() > 0 {
            return ConfigPathSource::Override(p);
        }
    }
    if let Some(d) = config_dir_var {
        if d.as_str().unicode_len() > 0 {
            return ConfigPathSource::ConfigDir(d);
        }
    }
    ConfigPathSource::Default
}

/// The path `file` names under the directory `dir`, as
/// `std::path::Path::join` forms it (with the build target's separator;
/// an absolute `file` replaces `dir`).
pub uninterp spec fn path_joined(dir: Seq<char>, file: Seq<char>) -> Seq<char>;

/// `std::path::Path::join` of two UTF-8 paths, read back as text (the
/// result of joining UTF-8 strings is UTF-8, so nothing is lost). The
/// result is named: it depends on its arguments and the build target
/// alone.
#[verifier::external_body]
fn join_path(dir: &str, file: &str) -> (r: String)
    ensures
        r@ == path_joined(dir@, file@),
{
    std::path::Path::new(dir).join(file).to_string_lossy().into_owned()
}

/// The operator file a choice of source names: the override path as
/// given, `CONFIG_FILE_IN_DIR` joined under the config dir, or
/// `DEFAULT_CONFIG_PATH`.
pub fn config_file_path(source: &ConfigPathSource) -> (r: String)
    ensures
        r@ == match source {
            ConfigPathSource::Override(p) => p@,
            ConfigPathSource::ConfigDir(d) => path_joined(d@, CONFIG_FILE_IN_DIR@),
            ConfigPathSource::Default => DEFAULT_CONFIG_PATH@,
        },
{
    match source {
        ConfigPathSource::Override(p) => p.clone(),
        ConfigPathSource::ConfigDir(d) => join_path(d.as_str(), CONFIG_FILE_IN_DIR),
        ConfigPathSource::Default => String::from_str(DEFAULT_CONFIG_PATH),
    }
}

} // verus!
