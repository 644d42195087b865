//! The `web_search` tool call: what the daemon hands over, the
//! per-binding policy slice, and the decisions taken before the router
//! runs the search.
use std::sync::Arc;
use vstd::prelude::*;

use crate::plugin::WebSearchPlugin;
use crate::backend::share;
use crate::text::{concat2, concat3, contains, copy_strings, seq_contains, str_eq};

verus! {

/// Time-window filter of a search.
#[derive(Debug, Clone, Copy, PartialEq, Eq)]
pub enum Freshness {
    Day,
    Week,
    Month,
    Year,
}

/// The search arguments the model passed, as the router takes them.
#[derive(Debug, Clone)]
pub struct SearchArgs {
    pub query: String,
    pub count: Option<u8>,
    pub provider: Option<String>,
    pub freshness: Option<Freshness>,
    pub country: Option<String>,
    pub language: Option<String>,
    pub expand: bool,
}

/// A tool call's arguments: the optional `instance` string, and the
/// search arguments as they parsed (or the parse error's text).
#[derive(Debug)]
pub struct ToolArgs {
    pub instance: Option<String>,
    pub search: Result<SearchArgs, String>,
}

/// The per-binding policy slice the daemon attaches to a call. Each field
/// is the value under its key when that value has the expected JSON type.
#[derive(Debug, Clone)]
pub struct BindingPolicy {
    pub enabled: Option<bool>,
    pub default_count: Option<u64>,
    pub expand_default: Option<bool>,
    pub provider: Option<String>,
}

/// Why a tool call was refused or failed.
#[derive(Debug, Clone)]
pub enum InvokeError {
    /// The tool name is not `web_search`.
    UnknownTool { tool_name: String },
    /// The binding's policy has `enabled: false`.
    DisabledByPolicy,
    /// No explicit instance, no private one for the agent, no shared one.
    NoInstance { agent_id: String },
    /// The resolved instance id is not configured.
    NotConfigured { instance_id: String },
    /// The arguments did not parse as search arguments.
    InvalidArgs { detail: String },
    /// The router's search failed.
    SearchFailed { detail: String },
}


/// What the router is asked to do for a call that passed every check.
pub struct InvocationPlan {
    /// The instance that serves the call.
    pub instance_id: String,
    /// That instance's router.
    pub router: Arc<nexo_web_search::WebSearchRouter>,
    /// The search arguments, with the policy's defaults filled in.
    pub args: SearchArgs,
    /// The provider to ask for: the call's own pick, else the policy's,
    /// else none (the instance's fallback order).
    pub provider: Option<String>,
    /// The instance's fallback order, for a call that names no provider.
    pub order: Vec<String>,
}

/// The provider picks handed to the router in turn, until one search
/// succeeds: the named provider alone; else the instance's fallback
/// order; else no pick (the router's own order).
pub open spec fn attempts_for(provider: Option<Seq<char>>, order: Seq<Seq<char>>) -> Seq<
    Option<Seq<char>>,
> {
    match provider {
        Some(p) => seq![Some(p)],
        None => if order.len() == 0 {
            seq![None]
        } else {
            order.map_values(|n: Seq<char>| Some(n))
        },
    }
}

/// The fields the reply to a successful call adds to the search result:
/// the instance that served it, and `expand_supported: false` when the
/// call asked for expansion (link extraction does not run here).
#[derive(Debug, Clone)]
pub struct ReplyExtras {
    pub instance: String,
    pub expand_supported: Option<bool>,
}

impl InvocationPlan {
    /// The provider picks to hand the router in turn (see
    /// `attempts_for`); there is always at least one.
    pub fn attempts(&self) -> (r: Vec<Option<String>>)
        ensures
            r@.len() == attempts_for(opt_view(self.provider), self.order.deep_view()).len(),
            r@.len() >= 1,
            forall|i: int|
                0 <= i < r@.len() ==> opt_view(#[trigger] r@[i]) == attempts_for(
                    opt_view(self.provider),
                    self.order.deep_view(),
                )[i],
    {
        let mut out: Vec<Option<String>> = Vec::new();
        match &self.provider {
            Some(p) => {
                out.push(Some(p.clone()));
            },
            None => {
                if self.order.len() == 0 {
                    out.push(None);
                } else {
                    let mut i: usize = 0;
                    while i < self.order.len()
                        invariant
                            self.provider is None,
                            i <= self.order@.len(),
                            out@.len() == i,
                            forall|j: int|
                                0 <= j < i ==> opt_view(#[trigger] out@[j]) == Some(
                                    self.order@[j]@,
                                ),
                        decreases self.order@.len() - i,
                    {
                        out.push(Some(self.order[i].clone()));
                        i = i + 1;
                    }
                    proof {
                        assert forall|j: int| 0 <= j < out@.len() implies opt_view(
                            #[trigger] out@[j],
                        ) == attempts_for(opt_view(self.provider), self.order.deep_view())[j] by {
                            assert(self.order.deep_view()[j] == self.order@[j]@);
                        }
                    }
                }
            },
        }
        out
    }

    /// The fields the reply adds to the search result.
    pub fn reply_extras(&self) -> (r: ReplyExtras)
        ensures
            r.instance@ == self.instance_id@,
            r.expand_supported == (if self.args.expand {
                Some(false)
            } else {
                None
            }),
    {
        ReplyExtras {
            instance: self.instance_id.clone(),
            expand_supported: if self.args.expand {
                Some(false)
            } else {
                None
            },
        }
    }
}

/// What to do next while a planned call is searched: ask the router with
/// this provider pick, stop with the search result, or give up.
#[derive(Debug)]
pub enum SearchStep<T> {
    Ask(Option<String>),
    Done(T),
    Failed(InvokeError),
}

impl InvocationPlan {
    /// The next step of searching for this plan, after `tried` searches of
    /// which `last` is the latest outcome (none before the first): a
    /// success ends the call with its result; otherwise the next pick of
    /// `attempts` is asked; when none is left the call fails with the last
    /// search's error text.
    pub fn search_step<T>(&self, tried: usize, last: Option<Result<T, String>>) -> (r: SearchStep<T>)
        ensures
            ({
                let picks = attempts_for(opt_view(self.provider), self.order.deep_view());
                match last {
                    Some(Ok(v)) => r == SearchStep::<T>::Done(v),
                    _ => if tried < picks.len() {
                        r matches SearchStep::Ask(p) && opt_view(p) == picks[tried as int]
                    } else {
                        r matches SearchStep::Failed(InvokeError::SearchFailed { detail: d })
                            && d@ == match last {
                            Some(Err(e)) => e@,
                            _ => Seq::<char>::empty(),
                        }
                    },
                }
            }),
    {
        let detail = match last {
            Some(Ok(v)) => {
                return SearchStep::Done(v);
            },
            Some(Err(e)) => e,
            None => String::new(),
        };
        let picks = self.attempts();
        if tried < picks.len() {
            let pick = match &picks[tried] {
                Some(p) => Some(p.clone()),
                None => None,
            };
            SearchStep::Ask(pick)
        } else {
            SearchStep::Failed(InvokeError::SearchFailed { detail })
        }
    }
}

/// The policy's provider, when it names one: empty and `auto` mean
/// "let the router decide".
pub open spec fn policy_provider(policy: Option<BindingPolicy>) -> Option<Seq<char>> {
    match policy {
        Some(p) => match p.provider {
            Some(name) => if name@.len() > 0 && name@ != "auto"@ {
                Some(name@)
            } else {
                None
            },
            None => None,
        },
        None => None,
    }
}

/// Provider precedence: the call's explicit pick, then the policy's.
pub open spec fn provider_pick(args: SearchArgs, policy: Option<BindingPolicy>) -> Option<Seq<char>> {
    match args.provider {
        Some(name) => Some(name@),
        None => policy_provider(policy),
    }
}

/// The search arguments with the policy's defaults applied where the
/// call left them out: `default_count` (capped at 255) when no count was
/// given, `expand_default` when `expand` was not set.
pub open spec fn with_policy_defaults(args: SearchArgs, policy: Option<BindingPolicy>) -> SearchArgs {
    match policy {
        Some(p) => SearchArgs {
            count: if args.count is None && p.default_count is Some {
                Some(
                    (if p.default_count->0 <= 255 {
                        p.default_count->0
                    } else {
                        255
                    }) as u8,
                )
            } else {
                args.count
            },
            expand: if !args.expand && p.expand_default is Some {
                p.expand_default->0
            } else {
                args.expand
            },
            ..args
        },
        None => args,
    }
}

/// The binding's policy turns the tool off.
pub open spec fn policy_disables(policy: Option<BindingPolicy>) -> bool {
    match policy {
        Some(p) => p.enabled == Some(false),
        None => false,
    }
}

pub open spec fn opt_view(s: Option<String>) -> Option<Seq<char>> {
    match s {
        Some(x) => Some(x@),
        None => None,
    }
}

fn policy_provider_exec(policy: Option<&BindingPolicy>) -> (r: Option<String>)
    ensures
        opt_view(r) == policy_provider(match policy {
            Some(p) => Some(*p),
            None => None,
        }),
{
    match policy {
        Some(p) => match &p.provider {
            Some(name) => {
                if name.unicode_len() > 0 && !str_eq(name.as_str(), "auto") {
                    Some(name.clone())
                } else {
                    None
                }
            },
            None => None,
        },
        None => None,
    }
}

impl WebSearchPlugin {
    /// Decide a `tool.invoke` call from the daemon, up to the search
    /// itself: the tool must be `web_search`; a binding policy with
    /// `enabled: false` refuses it before anything else runs; the
    /// instance is resolved and must be configured; the arguments must
    /// have parsed; then the policy's defaults are applied and the
    /// provider is picked (call's own, then policy's, else the
    /// instance's fallback order, carried in the plan).
    pub fn invoke_outbound_tool(
        &self,
        tool_name: &str,
        args: ToolArgs,
        agent_id: &str,
        policy: Option<&BindingPolicy>,
    ) -> (r: Result<InvocationPlan, InvokeError>)
        ensures
            ({
                let pol = match policy {
                    Some(p) => Some(*p),
                    None => None,
                };
                let picked = self.resolution(opt_view(args.instance), agent_id@);
                if tool_name@ != "web_search"@ {
                    r matches Err(InvokeError::UnknownTool { tool_name: t }) && t@ == tool_name@
                } else if policy_disables(pol) {
                    r matches Err(InvokeError::DisabledByPolicy)
                } else if picked is None {
                    r matches Err(InvokeError::NoInstance { agent_id: a }) && a@ == agent_id@
                } else if !self.instance_map().contains_key(picked->0) {
                    r matches Err(InvokeError::NotConfigured { instance_id: i }) && i@
                        == picked->0
                } else {
                    match args.search {
                        Err(detail) => r matches Err(InvokeError::InvalidArgs { detail: d }) && d
                            == detail,
                        Ok(search) => r matches Ok(plan) && plan.instance_id@ == picked->0
                            && plan.router == self.instance_map()[picked->0].router && plan.args
                            == with_policy_defaults(search, pol) && opt_view(plan.provider)
                            == provider_pick(search, pol) && plan.order.deep_view()
                            == self.instance_map()[picked->0].order.deep_view(),
                    }
                }
            }),
    {
        if !str_eq(tool_name, "web_search") {
            return Err(InvokeError::UnknownTool { tool_name: tool_name.to_string() });
        }
        if let Some(p) = policy {
            if p.enabled == Some(false) {
                return Err(InvokeError::DisabledByPolicy);
            }
        }
        let instance_id = match self.resolve_instance(&args, agent_id) {
            Ok(id) => id,
            Err(e) => {
                return Err(e);
            },
        };
        let bundle = match self.bundle_for(instance_id.as_str()) {
            Some(bundle) => bundle,
            None => {
                return Err(InvokeError::NotConfigured { instance_id });
            },
        };
        let router = share(&bundle.router);
        let order = copy_strings(&bundle.order);
        let mut search = match args.search {
            Ok(search) => search,
            Err(detail) => {
                return Err(InvokeError::InvalidArgs { detail });
            },
        };
        if let Some(p) = policy {
            if search.count.is_none() {
                if let Some(c) = p.default_count {
                    let capped: u64 = if c <= 255 {
                        c
                    } else {
                        255
                    };
                    search.count = Some(capped as u8);
                }
            }
            if !search.expand {
                if let Some(b) = p.expand_default {
                    search.expand = b;
                }
            }
        }
        let provider = match &search.provider {
            Some(name) => Some(name.clone()),
            None => policy_provider_exec(policy),
        };
        Ok(InvocationPlan { instance_id, router, args: search, provider, order })
    }
}

impl InvokeError {
    /// The error's text, as the daemon sees it.
    pub open spec fn message_spec(&self) -> Seq<char> {
        match self {
            InvokeError::UnknownTool { tool_name } => "unknown tool `"@ + tool_name@ + "`"@,
            InvokeError::DisabledByPolicy => "web_search disabled by policy on this binding"@,
            InvokeError::NoInstance { agent_id } => "agent `"@ + agent_id@ + NO_INSTANCE_TAIL@,
            InvokeError::NotConfigured { instance_id } => "instance `"@ + instance_id@
                + "` is not configured"@,
            InvokeError::InvalidArgs { detail } => "web_search args: "@ + detail@,
            InvokeError::SearchFailed { detail } => "web_search: "@ + detail@,
        }
    }

    /// The error's text, as the daemon sees it.
    pub fn message(&self) -> (r: String)
        ensures
            r@ == self.message_spec(),
    {
        match self {
            InvokeError::UnknownTool { tool_name } => concat3(
                "unknown tool `",
                tool_name.as_str(),
                "`",
            ),
            InvokeError::DisabledByPolicy => String::from_str(
                "web_search disabled by policy on this binding",
            ),
            InvokeError::NoInstance { agent_id } => concat3(
                "agent `",
                agent_id.as_str(),
                NO_INSTANCE_TAIL,
            ),
            InvokeError::NotConfigured { instance_id } => concat3(
                "instance `",
                instance_id.as_str(),
                "` is not configured",
            ),
            InvokeError::InvalidArgs { detail } => concat2("web_search args: ", detail.as_str()),
            InvokeError::SearchFailed { detail } => concat2("web_search: ", detail.as_str()),
        }
    }
}

pub const NO_INSTANCE_TAIL: &'static str = "` has no configured web_search instance (no private profile in `by_agent` and no shared instance in `instances[].agent_id == None`)";

/// The JSON-RPC error category a failed tool call is reported under.
#[derive(Debug, Clone, Copy, PartialEq, Eq)]
pub enum ToolErrorKind {
    NotFound,
    Denied,
    Unavailable,
    ArgumentInvalid,
    ExecutionFailed,
}

/// The category of a failure text, by the first rule that matches:
/// `unknown tool` is NotFound; `disabled by policy` is Denied; a missing
/// or unconfigured instance, or an open breaker, is Unavailable; a bad or
/// empty query is ArgumentInvalid; anything else ExecutionFailed.
pub open spec fn error_kind_of(msg: Seq<char>) -> ToolErrorKind {
    if seq_contains(msg, "unknown tool"@) {
        ToolErrorKind::NotFound
    } else if seq_contains(msg, "disabled by policy"@) {
        ToolErrorKind::Denied
    } else if seq_contains(msg, "no configured web_search instance"@) || seq_contains(
        msg,
        "not configured"@,
    ) || seq_contains(msg, "breaker open"@) {
        ToolErrorKind::Unavailable
    } else if seq_contains(msg, "requires `query`"@) || seq_contains(msg, "web_search args:"@)
        || seq_contains(msg, "query is empty"@) {
        ToolErrorKind::ArgumentInvalid
    } else {
        ToolErrorKind::ExecutionFailed
    }
}

/// Sort a failed call's text into its JSON-RPC error category.
pub fn classify_tool_error(msg: &str) -> (r: ToolErrorKind)
    ensures
        r == error_kind_of(msg@),
{
    if contains(msg, "unknown tool") {
        ToolErrorKind::NotFound
    } else if contains(msg, "disabled by policy") {
        ToolErrorKind::Denied
    } else if contains(msg, "no configured web_search instance") || contains(msg, "not configured")
        || contains(msg, "breaker open") {
        ToolErrorKind::Unavailable
    } else if contains(msg, "requires `query`") || contains(msg, "web_search args:") || contains(
        msg,
        "query is empty",
    ) {
        ToolErrorKind::ArgumentInvalid
    } else {
        ToolErrorKind::ExecutionFailed
    }
}

/// The text a call without an agent id is refused with.
pub const MISSING_AGENT_ID: &'static str = "tool.invoke is missing `agent_id` (daemon must include it)";

/// The agent a `tool.invoke` comes from. A call without one is refused
/// before anything else, as ArgumentInvalid with `MISSING_AGENT_ID`.
pub fn calling_agent(agent_id: Option<String>) -> (r: Result<String, (ToolErrorKind, String)>)
    ensures
        match agent_id {
            Some(a) => r matches Ok(x) && x == a,
            None => r matches Err((kind, msg)) && kind == ToolErrorKind::ArgumentInvalid && msg@
                == MISSING_AGENT_ID@,
        },
{
    match agent_id {
        Some(a) => Ok(a),
        None => Err((ToolErrorKind::ArgumentInvalid, String::from_str(MISSING_AGENT_ID))),
    }
}

} // verus!
