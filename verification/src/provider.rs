//! Provider adapters and per-provider outcomes.
//!
//! A provider descriptor identifies one backend search source by a stable
//! name and carries its call profile: the upstream latency it exhibits and
//! how it answers a call that comes back in time. Invoking a provider for a
//! query under a deadline is a deterministic rule, stated by `spec_invoke`:
//! a provider whose latency reaches the deadline is recorded as a timeout,
//! one that answers in time yields either its ordered result list for the
//! query or its configured failure.

use vstd::prelude::*;
use vstd::string::StringExecFns;

verus! {

/// How a provider answers a call that comes back before the deadline.
#[derive(Clone)]
pub enum ProviderBehavior {
    /// Answer with the provider's standard result list for the query.
    Respond,
    /// Fail with a transport error carrying this cause.
    FailTransport(String),
    /// Fail with a malformed-response error carrying this cause.
    FailMalformed(String),
}

/// Identifies one provider adapter and holds its call profile. Built at
/// start-up, immutable thereafter, owned by the engine's registry.
#[derive(Clone)]
pub struct ProviderDescriptor {
    /// Stable provider name, used to attribute results and failures.
    pub name: String,
    /// Latency of the simulated upstream call, in milliseconds.
    pub latency_ms: u64,
    /// How the provider answers when it comes back in time.
    pub behavior: ProviderBehavior,
}

/// Why one provider's call failed.
#[derive(Debug)]
pub enum FailureCause {
    /// The provider did not answer before the shared deadline.
    Timeout,
    /// The call failed in transit, for the recorded reason.
    Transport(String),
    /// The upstream answer could not be understood, for the recorded reason.
    Malformed(String),
}

/// One provider's failure: who failed and why.
#[derive(Debug)]
pub struct ProviderFailure {
    pub provider: String,
    pub cause: FailureCause,
}

/// The result of invoking one provider for one query.
#[derive(Debug)]
pub enum ProviderOutcome {
    /// The provider answered with an ordered list of result strings.
    Success(Vec<String>),
    /// The provider failed; the failure records its identity and cause.
    Failure(ProviderFailure),
}

/// Mathematical image of `ProviderBehavior`.
pub enum BehaviorView {
    Respond,
    FailTransport(Seq<char>),
    FailMalformed(Seq<char>),
}

/// Mathematical image of `ProviderDescriptor`.
pub struct ProviderView {
    pub name: Seq<char>,
    pub latency_ms: u64,
    pub behavior: BehaviorView,
}

/// Mathematical image of `FailureCause`.
pub enum CauseView {
    Timeout,
    Transport(Seq<char>),
    Malformed(Seq<char>),
}

/// Mathematical image of `ProviderFailure`.
pub struct FailureView {
    pub provider: Seq<char>,
    pub cause: CauseView,
}

/// Mathematical image of `ProviderOutcome`.
pub enum OutcomeView {
    Success(Seq<Seq<char>>),
    Failure(FailureView),
}

impl View for ProviderBehavior {
    type V = BehaviorView;

    open spec fn view(&self) -> BehaviorView {
        match self {
            ProviderBehavior::Respond => BehaviorView::Respond,
            ProviderBehavior::FailTransport(c) => BehaviorView::FailTransport(c@),
            ProviderBehavior::FailMalformed(c) => BehaviorView::FailMalformed(c@),
        }
    }
}

impl DeepView for ProviderBehavior {
    type V = BehaviorView;

    open spec fn deep_view(&self) -> BehaviorView {
        self.view()
    }
}

impl View for ProviderDescriptor {
    type V = ProviderView;

    open spec fn view(&self) -> ProviderView {
        ProviderView { name: self.name@, latency_ms: self.latency_ms, behavior: self.behavior@ }
    }
}

impl DeepView for ProviderDescriptor {
    type V = ProviderView;

    open spec fn deep_view(&self) -> ProviderView {
        self.view()
    }
}

impl View for FailureCause {
    type V = CauseView;

    open spec fn view(&self) -> CauseView {
        match self {
            FailureCause::Timeout => CauseView::Timeout,
            FailureCause::Transport(c) => CauseView::Transport(c@),
            FailureCause::Malformed(c) => CauseView::Malformed(c@),
        }
    }
}

impl DeepView for FailureCause {
    type V = CauseView;

    open spec fn deep_view(&self) -> CauseView {
        self.view()
    }
}

impl View for ProviderFailure {
    type V = FailureView;

    open spec fn view(&self) -> FailureView {
        FailureView { provider: self.provider@, cause: self.cause@ }
    }
}

impl DeepView for ProviderFailure {
    type V = FailureView;

    open spec fn deep_view(&self) -> FailureView {
        self.view()
    }
}

impl View for ProviderOutcome {
    type V = OutcomeView;

    open spec fn view(&self) -> OutcomeView {
        match self {
            ProviderOutcome::Success(rs) => OutcomeView::Success(rs.deep_view()),
            ProviderOutcome::Failure(f) => OutcomeView::Failure(f@),
        }
    }
}

impl DeepView for ProviderOutcome {
    type V = OutcomeView;

    open spec fn deep_view(&self) -> OutcomeView {
        self.view()
    }
}

/// The ordered result list a provider named `name` yields for query `q`.
pub open spec fn provider_results(name: Seq<char>, q: Seq<char>) -> Seq<Seq<char>> {
    seq![
        name + " Result 1 for '"@ + q + "'"@,
        name + " Result 2 for '"@ + q + "'"@,
    ]
}

/// The outcome of invoking provider `p` for query `q` under `deadline_ms`:
/// a provider whose latency reaches the deadline is a timeout; one that
/// answers in time yields its result list or its configured failure.
pub open spec fn spec_invoke(p: ProviderView, q: Seq<char>, deadline_ms: u64) -> OutcomeView {
    if p.latency_ms >= deadline_ms {
        OutcomeView::Failure(FailureView { provider: p.name, cause: CauseView::Timeout })
    } else {
        match p.behavior {
            BehaviorView::Respond => OutcomeView::Success(provider_results(p.name, q)),
            BehaviorView::FailTransport(c) => OutcomeView::Failure(
                FailureView { provider: p.name, cause: CauseView::Transport(c) },
            ),
            BehaviorView::FailMalformed(c) => OutcomeView::Failure(
                FailureView { provider: p.name, cause: CauseView::Malformed(c) },
            ),
        }
    }
}

/// Builds the provider's result strings for a query.
pub fn provider_result_strings(name: &String, query: &str) -> (r: Vec<String>)
    ensures
        r.deep_view() == provider_results(name@, query@),
{
    let first = name.clone().concat(" Result 1 for '").concat(query).concat("'");
    let second = name.clone().concat(" Result 2 for '").concat(query).concat("'");
    let mut out: Vec<String> = Vec::new();
    out.push(first);
    out.push(second);
    proof {
        assert(out.deep_view() =~= provider_results(name@, query@));
    }
    out
}

/// Produces a copy of a failure record.
pub fn copy_failure(f: &ProviderFailure) -> (r: ProviderFailure)
    ensures
        r@ == f@,
{
    let cause = match &f.cause {
        FailureCause::Timeout => FailureCause::Timeout,
        FailureCause::Transport(c) => FailureCause::Transport(c.clone()),
        FailureCause::Malformed(c) => FailureCause::Malformed(c.clone()),
    };
    ProviderFailure { provider: f.provider.clone(), cause }
}

/// Invokes one provider for one query under the shared deadline.
pub fn invoke_provider(p: &ProviderDescriptor, query: &str, deadline_ms: u64) -> (o:
    ProviderOutcome)
    ensures
        o@ == spec_invoke(p@, query@, deadline_ms),
{
    if p.latency_ms >= deadline_ms {
        ProviderOutcome::Failure(
            ProviderFailure { provider: p.name.clone(), cause: FailureCause::Timeout },
        )
    } else {
        match &p.behavior {
            ProviderBehavior::Respond => ProviderOutcome::Success(
                provider_result_strings(&p.name, query),
            ),
            ProviderBehavior::FailTransport(c) => ProviderOutcome::Failure(
                ProviderFailure { provider: p.name.clone(), cause: FailureCause::Transport(c.clone()) },
            ),
            ProviderBehavior::FailMalformed(c) => ProviderOutcome::Failure(
                ProviderFailure { provider: p.name.clone(), cause: FailureCause::Malformed(c.clone()) },
            ),
        }
    }
}

/// Deadline boundary law: a provider whose latency reaches the deadline is
/// recorded as a timeout naming that provider; a provider whose latency is
/// strictly below the deadline and which answers yields exactly its ordered
/// result list for the query.
pub proof fn lemma_deadline_boundary(p: ProviderView, q: Seq<char>, deadline_ms: u64)
    ensures
        p.latency_ms >= deadline_ms ==> spec_invoke(p, q, deadline_ms) == OutcomeView::Failure(
            FailureView { provider: p.name, cause: CauseView::Timeout },
        ),
        p.latency_ms < deadline_ms && p.behavior is Respond ==> spec_invoke(p, q, deadline_ms)
            == OutcomeView::Success(provider_results(p.name, q)),
{
}

} // verus!
