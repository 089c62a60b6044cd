//! The laws of the aggregation engine, stated and proved once and for all
//! inputs: order and completeness of the merge, rejection of invalid
//! queries, the partial-failure and all-failure policies, determinism, and
//! isolation of concurrent calls.

use vstd::prelude::*;

use crate::engine::EngineView;
use crate::engine::SearchError;
use crate::engine::SearchErrorView;
use crate::engine::any_success;
use crate::engine::collected_failures;
use crate::engine::failure_part;
use crate::engine::merged_results;
use crate::engine::search_result_view;
use crate::engine::spec_federated_search;
use crate::engine::spec_outcomes;
use crate::engine::success_part;
use crate::provider::OutcomeView;
use crate::provider::ProviderView;
use crate::provider::provider_results;
use crate::provider::spec_invoke;
use crate::query::query_ok;

verus! {

/// Every provider's result list for `q`, concatenated in registration
/// order.
pub open spec fn all_provider_results(providers: Seq<ProviderView>, q: Seq<char>) -> Seq<
    Seq<char>,
>
    decreases providers.len(),
{
    if providers.len() == 0 {
        Seq::empty()
    } else {
        all_provider_results(providers.drop_last(), q) + provider_results(
            providers.last().name,
            q,
        )
    }
}

proof fn lemma_merged_of_all_success(providers: Seq<ProviderView>, q: Seq<char>, deadline_ms: u64)
    requires
        forall|i: int|
            0 <= i < providers.len() ==> (#[trigger] providers[i]).latency_ms < deadline_ms,
        forall|i: int| 0 <= i < providers.len() ==> (#[trigger] providers[i]).behavior is Respond,
    ensures
        merged_results(spec_outcomes(providers, q, deadline_ms)) == all_provider_results(
            providers,
            q,
        ),
    decreases providers.len(),
{
    let outs = spec_outcomes(providers, q, deadline_ms);
    if providers.len() == 0 {
        assert(merged_results(outs) =~= all_provider_results(providers, q));
    } else {
        let pre = providers.drop_last();
        assert forall|i: int| 0 <= i < pre.len() implies (#[trigger] pre[i]).latency_ms
            < deadline_ms && pre[i].behavior is Respond by {
            assert(pre[i] == providers[i]);
        }
        lemma_merged_of_all_success(pre, q, deadline_ms);
        assert(spec_outcomes(pre, q, deadline_ms) =~= outs.drop_last());
        assert(outs.last() == spec_invoke(providers.last(), q, deadline_ms));
        assert(success_part(outs.last()) == provider_results(providers.last().name, q));
    }
}

/// Law: when every registered provider answers within the deadline, the
/// federated search returns exactly each provider's result list,
/// concatenated in registration order. The conclusion does not depend on
/// the individual latencies: any mixture of latencies below the deadline
/// yields the same output, so the ordering cannot depend on which
/// provider's call finishes first.
pub proof fn lemma_all_providers_succeed(e: EngineView, q: Seq<char>)
    requires
        query_ok(q),
        e.providers.len() > 0,
        forall|i: int|
            0 <= i < e.providers.len() ==> (#[trigger] e.providers[i]).latency_ms < e.deadline_ms,
        forall|i: int|
            0 <= i < e.providers.len() ==> (#[trigger] e.providers[i]).behavior is Respond,
    ensures
        spec_federated_search(e, q) == Result::<Seq<Seq<char>>, SearchErrorView>::Ok(
            all_provider_results(e.providers, q),
        ),
{
    let outs = spec_outcomes(e.providers, q, e.deadline_ms);
    assert(outs[0] == spec_invoke(e.providers[0], q, e.deadline_ms));
    assert(outs[0] is Success);
    assert(any_success(outs));
    lemma_merged_of_all_success(e.providers, q, e.deadline_ms);
}

/// Law: an empty or blank query is rejected before fan-out. The rejection
/// is the same for every provider registry and deadline: no provider
/// outcome can enter it.
pub proof fn lemma_invalid_query_rejected(e1: EngineView, e2: EngineView, q: Seq<char>)
    requires
        !query_ok(q),
    ensures
        spec_federated_search(e1, q) == Result::<Seq<Seq<char>>, SearchErrorView>::Err(
            SearchErrorView::InvalidQuery,
        ),
        spec_federated_search(e1, q) == spec_federated_search(e2, q),
{
}

/// Law: with two registered providers of which exactly one succeeds, the
/// federated search returns only the succeeding provider's entries. The
/// failing provider's detail is recorded in its own outcome, never in the
/// returned result list.
pub proof fn lemma_one_of_two_fails(e: EngineView, q: Seq<char>)
    requires
        query_ok(q),
        e.providers.len() == 2,
    ensures
        spec_invoke(e.providers[0], q, e.deadline_ms) is Success && spec_invoke(
            e.providers[1],
            q,
            e.deadline_ms,
        ) is Failure ==> spec_federated_search(e, q) == Result::<
            Seq<Seq<char>>,
            SearchErrorView,
        >::Ok(spec_invoke(e.providers[0], q, e.deadline_ms)->Success_0),
        spec_invoke(e.providers[0], q, e.deadline_ms) is Failure && spec_invoke(
            e.providers[1],
            q,
            e.deadline_ms,
        ) is Success ==> spec_federated_search(e, q) == Result::<
            Seq<Seq<char>>,
            SearchErrorView,
        >::Ok(spec_invoke(e.providers[1], q, e.deadline_ms)->Success_0),
{
    let outs = spec_outcomes(e.providers, q, e.deadline_ms);
    let pre = outs.drop_last();
    assert(outs.len() == 2);
    assert(outs[0] == spec_invoke(e.providers[0], q, e.deadline_ms));
    assert(outs[1] == spec_invoke(e.providers[1], q, e.deadline_ms));
    assert(pre.len() == 1);
    assert(pre.last() == outs[0]);
    assert(outs.last() == outs[1]);
    assert(merged_results(pre.drop_last()) =~= Seq::<Seq<char>>::empty());
    assert(merged_results(outs) == merged_results(pre) + success_part(outs[1]));
    assert(merged_results(pre) == merged_results(pre.drop_last()) + success_part(outs[0]));
    if outs[0] is Success && outs[1] is Failure {
        assert(any_success(outs));
        assert(merged_results(outs) =~= outs[0]->Success_0);
    }
    if outs[0] is Failure && outs[1] is Success {
        assert(any_success(outs));
        assert(merged_results(outs) =~= outs[1]->Success_0);
    }
}

proof fn lemma_failures_of_all_fail(outs: Seq<OutcomeView>)
    requires
        forall|i: int| 0 <= i < outs.len() ==> (#[trigger] outs[i]) is Failure,
    ensures
        collected_failures(outs).len() == outs.len(),
        forall|i: int|
            0 <= i < outs.len() ==> outs[i] == OutcomeView::Failure(
                #[trigger] collected_failures(outs)[i],
            ),
    decreases outs.len(),
{
    if outs.len() == 0 {
    } else {
        let pre = outs.drop_last();
        assert forall|i: int| 0 <= i < pre.len() implies (#[trigger] pre[i]) is Failure by {
            assert(pre[i] == outs[i]);
        }
        lemma_failures_of_all_fail(pre);
        assert(outs.last() is Failure);
        assert(failure_part(outs.last()).len() == 1);
        assert(collected_failures(outs) == collected_failures(pre) + failure_part(outs.last()));
        assert forall|i: int| 0 <= i < outs.len() implies outs[i] == OutcomeView::Failure(
            #[trigger] collected_failures(outs)[i],
        ) by {
            if i < pre.len() {
                assert(collected_failures(outs)[i] == collected_failures(pre)[i]);
                assert(outs[i] == pre[i]);
            } else {
                assert(collected_failures(outs)[i] == failure_part(outs.last())[0]);
                assert(outs[i] == outs.last());
            }
        }
    }
}

/// Law: when every registered provider fails, the federated search fails
/// with the all-providers error, whose list holds exactly one failure per
/// registered provider, in registration order, each naming that provider
/// and carrying its cause.
pub proof fn lemma_all_providers_fail(e: EngineView, q: Seq<char>)
    requires
        query_ok(q),
        forall|i: int|
            0 <= i < e.providers.len() ==> spec_invoke(
                #[trigger] e.providers[i],
                q,
                e.deadline_ms,
            ) is Failure,
    ensures
        ({
            let outs = spec_outcomes(e.providers, q, e.deadline_ms);
            let fs = collected_failures(outs);
            &&& spec_federated_search(e, q) == Result::<Seq<Seq<char>>, SearchErrorView>::Err(
                SearchErrorView::AllProvidersFailed(fs),
            )
            &&& fs.len() == e.providers.len()
            &&& forall|i: int|
                0 <= i < e.providers.len() ==> spec_invoke(e.providers[i], q, e.deadline_ms)
                    == OutcomeView::Failure(#[trigger] fs[i])
            &&& forall|i: int|
                0 <= i < e.providers.len() ==> (#[trigger] fs[i]).provider == e.providers[i].name
        }),
{
    let outs = spec_outcomes(e.providers, q, e.deadline_ms);
    assert forall|i: int| 0 <= i < outs.len() implies (#[trigger] outs[i]) is Failure by {
        assert(outs[i] == spec_invoke(e.providers[i], q, e.deadline_ms));
    }
    assert(!any_success(outs));
    lemma_failures_of_all_fail(outs);
    let fs = collected_failures(outs);
    assert forall|i: int| 0 <= i < e.providers.len() implies (#[trigger] fs[i]).provider
        == e.providers[i].name by {
        assert(outs[i] == spec_invoke(e.providers[i], q, e.deadline_ms));
        assert(outs[i] == OutcomeView::Failure(fs[i]));
    }
}

/// Law: the federated search is deterministic. Any two results that meet
/// the search's contract for the same engine and the same query are equal,
/// entry for entry; repeating a call can never reorder or change its
/// output.
pub proof fn lemma_deterministic(
    e: EngineView,
    q: Seq<char>,
    r1: Result<Vec<String>, SearchError>,
    r2: Result<Vec<String>, SearchError>,
)
    requires
        search_result_view(r1) == spec_federated_search(e, q),
        search_result_view(r2) == spec_federated_search(e, q),
    ensures
        search_result_view(r1) == search_result_view(r2),
{
}

/// Whether `q` occurs verbatim, as one contiguous run, inside `s`.
pub open spec fn contains_query(s: Seq<char>, q: Seq<char>) -> bool {
    exists|a: int|
        0 <= a && a + q.len() <= s.len() && #[trigger] s.subrange(a, a + q.len() as int) == q
}

proof fn lemma_provider_results_contain_query(name: Seq<char>, q: Seq<char>)
    ensures
        forall|k: int|
            0 <= k < provider_results(name, q).len() ==> contains_query(
                #[trigger] provider_results(name, q)[k],
                q,
            ),
{
    let rs = provider_results(name, q);
    let pre1 = name + " Result 1 for '"@;
    let pre2 = name + " Result 2 for '"@;
    assert(rs[0].subrange(pre1.len() as int, pre1.len() + q.len() as int) =~= q);
    assert(rs[1].subrange(pre2.len() as int, pre2.len() + q.len() as int) =~= q);
    assert(contains_query(rs[0], q));
    assert(contains_query(rs[1], q));
    assert forall|k: int| 0 <= k < provider_results(name, q).len() implies contains_query(
        #[trigger] provider_results(name, q)[k],
        q,
    ) by {
        assert(rs.len() == 2);
        if k == 0 {
            assert(provider_results(name, q)[k] == rs[0]);
        } else {
            assert(provider_results(name, q)[k] == rs[1]);
        }
    }
}

/// Whether `x` is one of the entries a success among `outs` contributed.
pub open spec fn attributed_entry(outs: Seq<OutcomeView>, x: Seq<char>) -> bool {
    exists|j: int, k: int|
        #![trigger success_part(outs[j])[k]]
        0 <= j < outs.len() && 0 <= k < success_part(outs[j]).len() && x == success_part(
            outs[j],
        )[k]
}

proof fn lemma_merged_entry_sources(outs: Seq<OutcomeView>)
    ensures
        forall|i: int|
            0 <= i < merged_results(outs).len() ==> attributed_entry(
                outs,
                #[trigger] merged_results(outs)[i],
            ),
    decreases outs.len(),
{
    if outs.len() == 0 {
        assert(merged_results(outs) =~= Seq::<Seq<char>>::empty());
    } else {
        let pre = outs.drop_last();
        lemma_merged_entry_sources(pre);
        assert forall|i: int| 0 <= i < merged_results(outs).len() implies attributed_entry(
            outs,
            #[trigger] merged_results(outs)[i],
        ) by {
            assert(merged_results(outs) == merged_results(pre) + success_part(outs.last()));
            if i < merged_results(pre).len() {
                assert(merged_results(outs)[i] == merged_results(pre)[i]);
                assert(attributed_entry(pre, merged_results(pre)[i]));
                let (j, k) = choose|j: int, k: int|
                    #![trigger success_part(pre[j])[k]]
                    0 <= j < pre.len() && 0 <= k < success_part(pre[j]).len() && merged_results(
                        pre,
                    )[i] == success_part(pre[j])[k];
                assert(pre[j] == outs[j]);
                assert(success_part(outs[j])[k] == merged_results(outs)[i]);
            } else {
                let k = i - merged_results(pre).len();
                let j = outs.len() - 1;
                assert(outs.last() == outs[j]);
                assert(success_part(outs[j])[k] == merged_results(outs)[i]);
            }
        }
    }
}

/// Law (isolation): a federated call's output is a function of the engine
/// and of that call's own query alone, and every entry of it is one of a
/// registered provider's result entries for that query — so it carries the
/// call's own query verbatim. Two simultaneous calls with different queries
/// therefore cannot contribute entries to each other's output.
pub proof fn lemma_call_isolation(e: EngineView, q: Seq<char>)
    ensures
        spec_federated_search(e, q) is Ok ==> ({
            let rs = spec_federated_search(e, q)->Ok_0;
            forall|i: int|
                0 <= i < rs.len() ==> contains_query(#[trigger] rs[i], q) && exists|j: int|
                    0 <= j < e.providers.len() && provider_results(
                        (#[trigger] e.providers[j]).name,
                        q,
                    ).contains(rs[i])
        }),
{
    if spec_federated_search(e, q) is Ok {
        let outs = spec_outcomes(e.providers, q, e.deadline_ms);
        let rs = spec_federated_search(e, q)->Ok_0;
        assert(rs == merged_results(outs));
        lemma_merged_entry_sources(outs);
        assert forall|i: int| 0 <= i < rs.len() implies contains_query(#[trigger] rs[i], q)
            && exists|j: int|
            0 <= j < e.providers.len() && provider_results(
                (#[trigger] e.providers[j]).name,
                q,
            ).contains(rs[i]) by {
            assert(attributed_entry(outs, rs[i]));
            let (j, k) = choose|j: int, k: int|
                #![trigger success_part(outs[j])[k]]
                0 <= j < outs.len() && 0 <= k < success_part(outs[j]).len() && rs[i]
                    == success_part(outs[j])[k];
            assert(outs[j] == spec_invoke(e.providers[j], q, e.deadline_ms));
            assert(outs[j] is Success);
            assert(success_part(outs[j]) == provider_results(e.providers[j].name, q));
            assert(provider_results(e.providers[j].name, q)[k] == rs[i]);
            assert(provider_results(e.providers[j].name, q).contains(rs[i]));
            lemma_provider_results_contain_query(e.providers[j].name, q);
            assert(contains_query(rs[i], q));
        }
    }
}

} // verus!
