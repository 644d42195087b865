//! The search machinery this plugin drives: the router and cache of
//! `nexo-web-search`, held opaquely, and the shared pointers that carry
//! them between the plugin's tables.
use std::sync::Arc;
use vstd::prelude::*;

verus! {

/// `nexo_web_search::WebSearchRouter`: provider selection, breakers and
/// cache glue for one instance. Opaque here.
#[verifier::external_type_specification]
#[verifier::external_body]
pub struct ExWebSearchRouter(nexo_web_search::WebSearchRouter);

/// The ids of the providers a router holds: the keys of its provider
/// map, fixed when the router is built (no method of the router changes
/// that map).
pub uninterp spec fn router_provider_ids(router: nexo_web_search::WebSearchRouter) -> Set<Seq<char>>;

/// `nexo_web_search::WebSearchCache`: the sqlite cache of one instance.
/// Opaque here.
#[verifier::external_type_specification]
#[verifier::external_body]
pub struct ExWebSearchCache(nexo_web_search::WebSearchCache);

/// `Arc::clone`: another pointer to the same allocation, so the value
/// seen through it is the same.
#[verifier::external_body]
pub(crate) fn share<T>(a: &Arc<T>) -> (r: Arc<T>)
    ensures
        r == *a,
{
    Arc::clone(a)
}

/// The per-instance bundle: the router that serves searches, when the
/// instance has its cache on a handle on that cache for the admin
/// commands, and the instance's fallback order (see
/// `instance_plan::provider_order`).
pub struct InstanceState {
    pub router: Arc<nexo_web_search::WebSearchRouter>,
    pub cache: Option<Arc<nexo_web_search::WebSearchCache>>,
    pub order: Vec<String>,
}

impl InstanceState {
    pub fn new(
        router: Arc<nexo_web_search::WebSearchRouter>,
        cache: Option<Arc<nexo_web_search::WebSearchCache>>,
        order: Vec<String>,
    ) -> (r: InstanceState)
        ensures
            r.router == router,
            r.cache == cache,
            r.order == order,
    {
        InstanceState { router, cache, order }
    }
}

} // verus!
