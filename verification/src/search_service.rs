//! The search service facade: the single entry point the transport layer
//! uses. It offers a simple single-provider search and the federated search,
//! and owns nothing beyond the shared aggregation engine.

use vstd::prelude::*;
use vstd::string::StringExecFns;

use crate::engine::AggregationEngine;
use crate::engine::SearchError;
use crate::engine::search_result_view;
use crate::engine::spec_federated_search;
use crate::provider::ProviderBehavior;
use crate::provider::ProviderDescriptor;
use crate::provider::ProviderView;
use crate::provider::BehaviorView;
use crate::query::query_is_valid;
use crate::query::query_ok;

verus! {

/// The search request payload: the query string supplied by the caller.
pub struct SearchRequest {
    /// The search query string.
    pub query: String,
}

/// The search response payload: the ordered list of result strings.
pub struct SearchResponse {
    /// A list of results from the search.
    pub results: Vec<String>,
}

/// The shared deadline a freshly built service imposes on one fan-out,
/// in milliseconds.
pub const DEFAULT_DEADLINE_MS: u64 = 1000;

/// The upstream latency of the default registry's first provider,
/// in milliseconds.
pub const GOOGLE_LATENCY_MS: u64 = 100;

/// The upstream latency of the default registry's second provider,
/// in milliseconds.
pub const AMAZON_LATENCY_MS: u64 = 150;

/// The ordered result list of the simple single-provider search for `q`.
pub open spec fn simple_results(q: Seq<char>) -> Seq<Seq<char>> {
    seq![
        "Result 1 for '"@ + q + "'"@,
        "Result 2 for '"@ + q + "'"@,
        "Result 3 for '"@ + q + "'"@,
    ]
}

/// The provider registry a freshly built service holds, in registration
/// order.
pub open spec fn default_providers() -> Seq<ProviderView> {
    seq![
        ProviderView {
            name: "Google"@,
            latency_ms: GOOGLE_LATENCY_MS,
            behavior: BehaviorView::Respond,
        },
        ProviderView {
            name: "Amazon"@,
            latency_ms: AMAZON_LATENCY_MS,
            behavior: BehaviorView::Respond,
        },
    ]
}

/// Coordinates searches for the transport layer: a simple search against a
/// fixed mock provider, and the federated search delegated to the shared
/// aggregation engine.
#[derive(Clone)]
pub struct SearchService {
    engine: AggregationEngine,
}

impl View for SearchService {
    type V = crate::engine::EngineView;

    closed spec fn view(&self) -> crate::engine::EngineView {
        self.engine@
    }
}

impl SearchService {
    /// A service over the default registry: the two stock providers under
    /// the default shared deadline.
    pub fn new() -> (s: Self)
        ensures
            s@.providers == default_providers(),
            s@.deadline_ms == DEFAULT_DEADLINE_MS,
    {
        let mut engine = AggregationEngine::new(DEFAULT_DEADLINE_MS);
        engine.register(
            ProviderDescriptor {
                name: String::from_str("Google"),
                latency_ms: GOOGLE_LATENCY_MS,
                behavior: ProviderBehavior::Respond,
            },
        );
        engine.register(
            ProviderDescriptor {
                name: String::from_str("Amazon"),
                latency_ms: AMAZON_LATENCY_MS,
                behavior: ProviderBehavior::Respond,
            },
        );
        proof {
            assert(engine@.providers =~= default_providers());
        }
        SearchService { engine }
    }

    /// A service over a caller-configured engine.
    pub fn with_engine(engine: AggregationEngine) -> (s: Self)
        ensures
            s@ == engine@,
    {
        SearchService { engine }
    }

    /// The simple search: validates the query, then answers it from the
    /// fixed mock provider with its three standard entries.
    pub fn search(&self, query: &str) -> (r: Result<Vec<String>, SearchError>)
        ensures
            !query_ok(query@) ==> r == Result::<Vec<String>, SearchError>::Err(
                SearchError::InvalidQuery,
            ),
            query_ok(query@) ==> r is Ok && r->Ok_0.deep_view() == simple_results(query@),
    {
        if !query_is_valid(query) {
            return Result::Err(SearchError::InvalidQuery);
        }
        let first = String::from_str("Result 1 for '").concat(query).concat("'");
        let second = String::from_str("Result 2 for '").concat(query).concat("'");
        let third = String::from_str("Result 3 for '").concat(query).concat("'");
        let mut out: Vec<String> = Vec::new();
        out.push(first);
        out.push(second);
        out.push(third);
        proof {
            assert(out.deep_view() =~= simple_results(query@));
        }
        Result::Ok(out)
    }

    /// The shared aggregation engine the service delegates to.
    pub fn engine(&self) -> (e: &AggregationEngine)
        ensures
            e@ == self@,
    {
        &self.engine
    }

    /// The federated search: delegates to the aggregation engine and
    /// surfaces its result or error unchanged.
    pub fn federated_search(&self, query: &str) -> (r: Result<Vec<String>, SearchError>)
        ensures
            search_result_view(r) == spec_federated_search(self@, query@),
    {
        self.engine.federated_search(query)
    }
}

} // verus!
