//! The aggregation engine: fans a query out to every registered provider,
//! bounds the wait by one shared deadline, and merges the successful
//! outcomes into one ordered result list.
//!
//! The merge is deterministic: successes are concatenated in the fixed
//! registration order of the providers, never in completion order. The call
//! succeeds as long as at least one provider succeeds; when every provider
//! fails, the error enumerates each provider's failure cause.

use vstd::prelude::*;

use crate::provider::FailureView;
use crate::provider::OutcomeView;
use crate::provider::ProviderDescriptor;
use crate::provider::ProviderFailure;
use crate::provider::ProviderOutcome;
use crate::provider::ProviderView;
use crate::provider::copy_failure;
use crate::provider::invoke_provider;
use crate::provider::spec_invoke;
use crate::query::query_is_valid;
use crate::query::query_ok;

verus! {

/// Why a whole search call failed.
#[derive(Debug)]
pub enum SearchError {
    /// The query was empty or blank; no provider was invoked.
    InvalidQuery,
    /// Every registered provider failed; the list records each failure.
    AllProvidersFailed(Vec<ProviderFailure>),
}

/// Mathematical image of `SearchError`.
pub enum SearchErrorView {
    InvalidQuery,
    AllProvidersFailed(Seq<FailureView>),
}

impl View for SearchError {
    type V = SearchErrorView;

    open spec fn view(&self) -> SearchErrorView {
        match self {
            SearchError::InvalidQuery => SearchErrorView::InvalidQuery,
            SearchError::AllProvidersFailed(fs) => SearchErrorView::AllProvidersFailed(
                fs.deep_view(),
            ),
        }
    }
}

/// Mathematical image of a whole search result.
pub open spec fn search_result_view(r: Result<Vec<String>, SearchError>) -> Result<
    Seq<Seq<char>>,
    SearchErrorView,
> {
    match r {
        Result::Ok(v) => Result::Ok(v.deep_view()),
        Result::Err(e) => Result::Err(e@),
    }
}

/// Whether at least one outcome is a success.
pub open spec fn any_success(outs: Seq<OutcomeView>) -> bool {
    exists|i: int| 0 <= i < outs.len() && outs[i] is Success
}

/// The result entries one outcome contributes to the merged list.
pub open spec fn success_part(o: OutcomeView) -> Seq<Seq<char>> {
    match o {
        OutcomeView::Success(rs) => rs,
        OutcomeView::Failure(_) => Seq::empty(),
    }
}

/// The failure records one outcome contributes to the failure list.
pub open spec fn failure_part(o: OutcomeView) -> Seq<FailureView> {
    match o {
        OutcomeView::Success(_) => Seq::empty(),
        OutcomeView::Failure(f) => seq![f],
    }
}

/// The merged result list: every success's entries, concatenated in the
/// order the outcomes stand in (the registration order of their providers).
pub open spec fn merged_results(outs: Seq<OutcomeView>) -> Seq<Seq<char>>
    decreases outs.len(),
{
    if outs.len() == 0 {
        Seq::empty()
    } else {
        merged_results(outs.drop_last()) + success_part(outs.last())
    }
}

/// Every failure among the outcomes, in the same fixed order.
pub open spec fn collected_failures(outs: Seq<OutcomeView>) -> Seq<FailureView>
    decreases outs.len(),
{
    if outs.len() == 0 {
        Seq::empty()
    } else {
        collected_failures(outs.drop_last()) + failure_part(outs.last())
    }
}

/// The merge policy: the call succeeds with the merged list as long as at
/// least one outcome is a success; otherwise it fails enumerating every
/// provider's failure.
pub open spec fn spec_merge(outs: Seq<OutcomeView>) -> Result<Seq<Seq<char>>, SearchErrorView> {
    if any_success(outs) {
        Result::Ok(merged_results(outs))
    } else {
        Result::Err(SearchErrorView::AllProvidersFailed(collected_failures(outs)))
    }
}

/// The outcome of every provider in registration order, for one query under
/// one shared deadline.
pub open spec fn spec_outcomes(providers: Seq<ProviderView>, q: Seq<char>, deadline_ms: u64) -> Seq<
    OutcomeView,
> {
    providers.map_values(|p: ProviderView| spec_invoke(p, q, deadline_ms))
}

/// What a federated search returns: an invalid query is rejected before any
/// provider is considered; otherwise the per-provider outcomes are merged.
pub open spec fn spec_federated_search(e: EngineView, q: Seq<char>) -> Result<
    Seq<Seq<char>>,
    SearchErrorView,
> {
    if !query_ok(q) {
        Result::Err(SearchErrorView::InvalidQuery)
    } else {
        spec_merge(spec_outcomes(e.providers, q, e.deadline_ms))
    }
}

/// Appends a copy of every entry of `src` to `dst`, in order.
fn append_results(dst: &mut Vec<String>, src: &Vec<String>)
    ensures
        final(dst).deep_view() == old(dst).deep_view() + src.deep_view(),
{
    let mut j: usize = 0;
    while j < src.len()
        invariant
            j <= src.len(),
            dst.deep_view() == old(dst).deep_view() + src.deep_view().take(j as int),
        decreases src.len() - j,
    {
        let ghost d0 = dst@;
        let ghost d0dv = dst.deep_view();
        let entry = src[j].clone();
        dst.push(entry);
        j += 1;
        proof {
            let dv = dst.deep_view();
            let goal = old(dst).deep_view() + src.deep_view().take(j as int);
            let ol = old(dst).deep_view().len() as int;
            assert(d0dv.len() == d0.len());
            assert(d0dv.len() == ol + (j - 1));
            assert(dv.len() == dst@.len());
            assert(dst@.len() == d0.len() + 1);
            assert(goal.len() == ol + j);
            assert forall|k: int| 0 <= k < dv.len() implies dv[k] == goal[k] by {
                assert(dv[k] == dst@[k].deep_view());
                if k < d0.len() {
                    assert(dst@[k] == d0[k]);
                    assert(d0dv[k] == d0[k].deep_view());
                    if k < ol {
                        assert(d0dv[k] == old(dst).deep_view()[k]);
                        assert(goal[k] == old(dst).deep_view()[k]);
                    } else {
                        assert(d0dv[k] == src.deep_view().take(j - 1)[k - ol]);
                        assert(d0dv[k] == src.deep_view()[k - ol]);
                        assert(goal[k] == src.deep_view().take(j as int)[k - ol]);
                        assert(goal[k] == src.deep_view()[k - ol]);
                    }
                } else {
                    assert(k == ol + (j - 1));
                    assert(src.deep_view()[j - 1] == src@[j - 1].deep_view());
                    assert(goal[k] == src.deep_view()[j - 1]);
                }
            }
            assert(dv =~= goal);
        }
    }
    proof {
        assert(src.deep_view().take(src.len() as int) =~= src.deep_view());
    }
}

/// Merges per-provider outcomes into the final result: the successes'
/// entries in order when any provider succeeded, else the full failure list.
pub fn merge_outcomes(outcomes: &Vec<ProviderOutcome>) -> (r: Result<Vec<String>, SearchError>)
    ensures
        search_result_view(r) == spec_merge(outcomes.deep_view()),
{
    let ghost outs = outcomes.deep_view();
    let mut merged: Vec<String> = Vec::new();
    let mut failures: Vec<ProviderFailure> = Vec::new();
    let mut saw_success = false;
    let mut i: usize = 0;
    while i < outcomes.len()
        invariant
            i <= outcomes.len(),
            outs == outcomes.deep_view(),
            outs.len() == outcomes.len(),
            merged.deep_view() == merged_results(outs.take(i as int)),
            failures.deep_view() == collected_failures(outs.take(i as int)),
            saw_success == any_success(outs.take(i as int)),
        decreases outcomes.len() - i,
    {
        let ghost prefix = outs.take(i as int);
        match &outcomes[i] {
            ProviderOutcome::Success(rs) => {
                append_results(&mut merged, rs);
                saw_success = true;
            },
            ProviderOutcome::Failure(f) => {
                failures.push(copy_failure(f));
            },
        }
        i += 1;
        proof {
            let next = outs.take(i as int);
            assert(next.drop_last() =~= prefix);
            assert(next.last() == outs[i - 1]);
            assert(merged.deep_view() =~= merged_results(next));
            assert(failures.deep_view() =~= collected_failures(next));
            if outs[i - 1] is Success {
                assert(any_success(next));
            } else {
                assert(any_success(next) == any_success(prefix)) by {
                    if any_success(next) {
                        let w = choose|k: int| 0 <= k < next.len() && next[k] is Success;
                        assert(w < i - 1 || w == i - 1);
                        if w < i - 1 {
                            assert(prefix[w] is Success);
                        }
                    }
                    if any_success(prefix) {
                        let w = choose|k: int| 0 <= k < prefix.len() && prefix[k] is Success;
                        assert(next[w] is Success);
                    }
                }
            }
        }
    }
    proof {
        assert(outs.take(outcomes.len() as int) =~= outs);
    }
    if saw_success {
        Result::Ok(merged)
    } else {
        Result::Err(SearchError::AllProvidersFailed(failures))
    }
}

/// Mathematical image of `AggregationEngine`: the registered providers in
/// registration order, and the shared deadline.
pub struct EngineView {
    pub providers: Seq<ProviderView>,
    pub deadline_ms: u64,
}

/// Holds the registered set of provider adapters and the shared deadline,
/// fans a query out to all of them, and merges the outcomes. The registry is
/// configured at start-up and read-only afterwards; each call works on state
/// of its own, so one engine serves any number of simultaneous calls.
#[derive(Clone)]
pub struct AggregationEngine {
    providers: Vec<ProviderDescriptor>,
    deadline_ms: u64,
}

impl View for AggregationEngine {
    type V = EngineView;

    closed spec fn view(&self) -> EngineView {
        EngineView { providers: self.providers.deep_view(), deadline_ms: self.deadline_ms }
    }
}

impl AggregationEngine {
    /// An engine with an empty registry and the given shared deadline.
    pub fn new(deadline_ms: u64) -> (e: Self)
        ensures
            e@.providers == Seq::<ProviderView>::empty(),
            e@.deadline_ms == deadline_ms,
    {
        let e = AggregationEngine { providers: Vec::new(), deadline_ms };
        proof {
            assert(e@.providers =~= Seq::<ProviderView>::empty());
        }
        e
    }

    /// Registers one more provider, after all already registered ones.
    pub fn register(&mut self, provider: ProviderDescriptor)
        ensures
            final(self)@.providers == old(self)@.providers.push(provider@),
            final(self)@.deadline_ms == old(self)@.deadline_ms,
    {
        self.providers.push(provider);
        proof {
            assert(self@.providers =~= old(self)@.providers.push(self.providers@.last()@));
        }
    }

    /// The registered providers, in registration order.
    pub fn providers(&self) -> (ps: &Vec<ProviderDescriptor>)
        ensures
            ps.deep_view() == self@.providers,
    {
        &self.providers
    }

    /// How many providers are registered.
    pub fn provider_count(&self) -> (n: usize)
        ensures
            n == self@.providers.len(),
    {
        self.providers.len()
    }

    /// The shared deadline, in milliseconds.
    pub fn deadline_ms(&self) -> (d: u64)
        ensures
            d == self@.deadline_ms,
    {
        self.deadline_ms
    }

    /// Invokes every registered provider for the query, in registration
    /// order, under the shared deadline. Each provider's failure stays
    /// observable in its own outcome, whatever the others did.
    pub fn collect_outcomes(&self, query: &str) -> (outcomes: Vec<ProviderOutcome>)
        ensures
            outcomes.deep_view() == spec_outcomes(self@.providers, query@, self@.deadline_ms),
    {
        let ghost pviews = self@.providers;
        let mut outcomes: Vec<ProviderOutcome> = Vec::new();
        let mut i: usize = 0;
        while i < self.providers.len()
            invariant
                i <= self.providers.len(),
                pviews == self@.providers,
                pviews.len() == self.providers.len(),
                outcomes.deep_view() == spec_outcomes(
                    pviews.take(i as int),
                    query@,
                    self@.deadline_ms,
                ),
            decreases self.providers.len() - i,
        {
            let ghost prev = outcomes@;
            let ghost prevdv = outcomes.deep_view();
            proof {
                assert(pviews[i as int] == self.providers@[i as int].deep_view());
            }
            let o = invoke_provider(&self.providers[i], query, self.deadline_ms);
            outcomes.push(o);
            i += 1;
            proof {
                let dv = outcomes.deep_view();
                let goal = spec_outcomes(pviews.take(i as int), query@, self@.deadline_ms);
                assert(prevdv.len() == prev.len());
                assert(prevdv.len() == i - 1);
                assert(dv.len() == outcomes@.len());
                assert(outcomes@.len() == prev.len() + 1);
                assert(goal.len() == i);
                assert forall|k: int| 0 <= k < dv.len() implies dv[k] == goal[k] by {
                    assert(dv[k] == outcomes@[k].deep_view());
                    assert(goal[k] == spec_invoke(
                        pviews.take(i as int)[k],
                        query@,
                        self@.deadline_ms,
                    ));
                    assert(pviews.take(i as int)[k] == pviews[k]);
                    if k < prev.len() {
                        assert(outcomes@[k] == prev[k]);
                        assert(prevdv[k] == prev[k].deep_view());
                        assert(prevdv[k] == spec_outcomes(
                            pviews.take(i - 1),
                            query@,
                            self@.deadline_ms,
                        )[k]);
                        assert(pviews.take(i - 1)[k] == pviews[k]);
                    } else {
                        assert(k == i - 1);
                    }
                }
                assert(dv =~= goal);
            }
        }
        proof {
            assert(pviews.take(self.providers.len() as int) =~= pviews);
        }
        outcomes
    }

    /// Fans the query out to every registered provider, bounds each call by
    /// the shared deadline, and merges the outcomes in registration order.
    pub fn federated_search(&self, query: &str) -> (r: Result<Vec<String>, SearchError>)
        ensures
            search_result_view(r) == spec_federated_search(self@, query@),
    {
        if !query_is_valid(query) {
            return Result::Err(SearchError::InvalidQuery);
        }
        let outcomes = self.collect_outcomes(query);
        merge_outcomes(&outcomes)
    }
}

} // verus!
