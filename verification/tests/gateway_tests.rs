use fedsearch::engine::AggregationEngine;
use fedsearch::engine::SearchError;
use fedsearch::engine::merge_outcomes;
use fedsearch::provider::FailureCause;
use fedsearch::provider::ProviderBehavior;
use fedsearch::provider::ProviderDescriptor;
use fedsearch::provider::ProviderOutcome;
use fedsearch::provider::invoke_provider;
use fedsearch::search_service::SearchRequest;
use fedsearch::search_service::SearchResponse;
use fedsearch::search_service::SearchService;

fn provider(name: &str, latency_ms: u64, behavior: ProviderBehavior) -> ProviderDescriptor {
    ProviderDescriptor { name: name.to_owned(), latency_ms, behavior }
}

fn engine_with(deadline_ms: u64, providers: Vec<ProviderDescriptor>) -> AggregationEngine {
    let mut engine = AggregationEngine::new(deadline_ms);
    for p in providers {
        engine.register(p);
    }
    engine
}

#[test]
fn default_service_federated_search_merges_in_registration_order() {
    let service = SearchService::new();
    let results = service.federated_search("rust").unwrap();
    assert_eq!(
        results,
        vec![
            "Google Result 1 for 'rust'".to_owned(),
            "Google Result 2 for 'rust'".to_owned(),
            "Amazon Result 1 for 'rust'".to_owned(),
            "Amazon Result 2 for 'rust'".to_owned(),
        ]
    );
}

#[test]
fn simple_search_returns_three_mock_results() {
    let service = SearchService::new();
    let results = service.search("laptops").unwrap();
    assert_eq!(
        results,
        vec![
            "Result 1 for 'laptops'".to_owned(),
            "Result 2 for 'laptops'".to_owned(),
            "Result 3 for 'laptops'".to_owned(),
        ]
    );
}

#[test]
fn empty_query_is_rejected_by_both_operations() {
    let service = SearchService::new();
    assert!(matches!(service.search(""), Err(SearchError::InvalidQuery)));
    assert!(matches!(service.federated_search(""), Err(SearchError::InvalidQuery)));
}

#[test]
fn blank_query_is_rejected_by_both_operations() {
    let service = SearchService::new();
    assert!(matches!(service.search("  \t\r\n "), Err(SearchError::InvalidQuery)));
    assert!(matches!(service.federated_search("   "), Err(SearchError::InvalidQuery)));
}

#[test]
fn unicode_whitespace_queries_are_rejected_by_both_operations() {
    let service = SearchService::new();
    // Vertical tab and form feed: ASCII controls that str::trim removes.
    assert!(matches!(service.search("\u{000B}"), Err(SearchError::InvalidQuery)));
    assert!(matches!(service.federated_search("\u{000B}"), Err(SearchError::InvalidQuery)));
    assert!(matches!(service.federated_search("\u{000C}"), Err(SearchError::InvalidQuery)));
    // No-break space, next line, en space, line separator, narrow no-break
    // space, ideographic space: non-ASCII members of the White_Space set.
    assert!(matches!(
        service.federated_search("\u{00A0}\u{0085}\u{2003}\u{2028}\u{202F}\u{3000}"),
        Err(SearchError::InvalidQuery)
    ));
    assert!(matches!(
        service.search("\u{1680}\u{2000}\u{200A}\u{2029}\u{205F}"),
        Err(SearchError::InvalidQuery)
    ));
}

#[test]
fn one_non_blank_character_among_whitespace_makes_a_query_valid() {
    let service = SearchService::new();
    let results = service.federated_search("\u{00A0}\u{000B}x\u{3000}").unwrap();
    assert_eq!(results.len(), 4);
    // A zero-width space is not in the White_Space set, so it alone already
    // makes a query valid.
    assert!(service.search("\u{200B}").is_ok());
}

#[test]
fn merge_order_does_not_depend_on_latency() {
    // The same two providers, once with the first much slower than the
    // second and once the other way round; both latencies stay below the
    // deadline, so the merged output must be identical.
    let slow_first = engine_with(
        1000,
        vec![
            provider("Alpha", 900, ProviderBehavior::Respond),
            provider("Beta", 10, ProviderBehavior::Respond),
        ],
    );
    let slow_second = engine_with(
        1000,
        vec![
            provider("Alpha", 10, ProviderBehavior::Respond),
            provider("Beta", 900, ProviderBehavior::Respond),
        ],
    );
    let first = SearchService::with_engine(slow_first).federated_search("books").unwrap();
    let second = SearchService::with_engine(slow_second).federated_search("books").unwrap();
    assert_eq!(first, second);
    assert_eq!(
        first,
        vec![
            "Alpha Result 1 for 'books'".to_owned(),
            "Alpha Result 2 for 'books'".to_owned(),
            "Beta Result 1 for 'books'".to_owned(),
            "Beta Result 2 for 'books'".to_owned(),
        ]
    );
}

#[test]
fn one_failing_provider_leaves_only_the_other_results() {
    let engine = engine_with(
        1000,
        vec![
            provider("Alpha", 10, ProviderBehavior::FailTransport("connection reset".to_owned())),
            provider("Beta", 10, ProviderBehavior::Respond),
        ],
    );
    let results = SearchService::with_engine(engine).federated_search("shoes").unwrap();
    assert_eq!(
        results,
        vec![
            "Beta Result 1 for 'shoes'".to_owned(),
            "Beta Result 2 for 'shoes'".to_owned(),
        ]
    );
}

#[test]
fn failures_stay_observable_even_when_the_call_succeeds() {
    let engine = engine_with(
        1000,
        vec![
            provider("Alpha", 10, ProviderBehavior::FailTransport("connection reset".to_owned())),
            provider("Beta", 10, ProviderBehavior::Respond),
        ],
    );
    let outcomes = engine.collect_outcomes("shoes");
    assert_eq!(outcomes.len(), 2);
    match &outcomes[0] {
        ProviderOutcome::Failure(f) => {
            assert_eq!(f.provider, "Alpha");
            match &f.cause {
                FailureCause::Transport(cause) => assert_eq!(cause, "connection reset"),
                _ => panic!("expected a transport cause"),
            }
        }
        _ => panic!("expected a failure outcome"),
    }
    assert!(matches!(outcomes[1], ProviderOutcome::Success(_)));
}

#[test]
fn all_failing_providers_yield_an_error_naming_each() {
    let engine = engine_with(
        100,
        vec![
            provider("Alpha", 500, ProviderBehavior::Respond),
            provider("Beta", 10, ProviderBehavior::FailMalformed("not json".to_owned())),
        ],
    );
    match SearchService::with_engine(engine).federated_search("toys") {
        Err(SearchError::AllProvidersFailed(failures)) => {
            assert_eq!(failures.len(), 2);
            assert_eq!(failures[0].provider, "Alpha".to_owned());
            assert!(matches!(failures[0].cause, FailureCause::Timeout));
            assert_eq!(failures[1].provider, "Beta".to_owned());
            match &failures[1].cause {
                FailureCause::Malformed(cause) => assert_eq!(cause, "not json"),
                _ => panic!("expected a malformed-response cause"),
            }
        }
        _ => panic!("expected the all-providers failure"),
    }
}

#[test]
fn provider_over_the_deadline_times_out_and_the_other_succeeds() {
    // Deadline 120 ms: provider A at 100 ms answers, provider B at 200 ms
    // is recorded as a timeout, so only A's entries are returned.
    let engine = engine_with(
        120,
        vec![
            provider("A", 100, ProviderBehavior::Respond),
            provider("B", 200, ProviderBehavior::Respond),
        ],
    );
    let results = SearchService::with_engine(engine).federated_search("games").unwrap();
    assert_eq!(
        results,
        vec![
            "A Result 1 for 'games'".to_owned(),
            "A Result 2 for 'games'".to_owned(),
        ]
    );
}

#[test]
fn latency_equal_to_the_deadline_counts_as_timeout() {
    let p = provider("Edge", 120, ProviderBehavior::Respond);
    match invoke_provider(&p, "q", 120) {
        ProviderOutcome::Failure(f) => {
            assert_eq!(f.provider, "Edge".to_owned());
            assert!(matches!(f.cause, FailureCause::Timeout));
        }
        _ => panic!("expected a timeout"),
    }
}

#[test]
fn latency_strictly_below_the_deadline_succeeds() {
    let p = provider("Edge", 119, ProviderBehavior::Respond);
    match invoke_provider(&p, "q", 120) {
        ProviderOutcome::Success(results) => {
            assert_eq!(
                results,
                vec![
                    "Edge Result 1 for 'q'".to_owned(),
                    "Edge Result 2 for 'q'".to_owned(),
                ]
            );
        }
        _ => panic!("expected a success"),
    }
}

#[test]
fn repeating_the_same_call_gives_identical_results() {
    let service = SearchService::new();
    let first = service.federated_search("cameras").unwrap();
    let second = service.federated_search("cameras").unwrap();
    assert_eq!(first, second);
}

#[test]
fn two_calls_with_different_queries_never_mix_results() {
    let service = SearchService::new();
    let first = service.federated_search("alpha query").unwrap();
    let second = service.federated_search("beta query").unwrap();
    for entry in &first {
        assert!(entry.contains("alpha query"));
        assert!(!second.contains(entry));
    }
    for entry in &second {
        assert!(entry.contains("beta query"));
        assert!(!first.contains(entry));
    }
}

#[test]
fn an_empty_registry_reports_all_providers_failed_with_no_entries() {
    let engine = AggregationEngine::new(500);
    match SearchService::with_engine(engine).federated_search("anything") {
        Err(SearchError::AllProvidersFailed(failures)) => assert_eq!(failures.len(), 0),
        _ => panic!("expected the all-providers failure"),
    }
}

#[test]
fn merge_outcomes_concatenates_successes_and_keeps_failures_aside() {
    let outcomes = vec![
        ProviderOutcome::Success(vec!["one".to_owned(), "two".to_owned()]),
        ProviderOutcome::Failure(fedsearch::provider::ProviderFailure {
            provider: "Gamma".to_owned(),
            cause: FailureCause::Transport("unreachable".to_owned()),
        }),
        ProviderOutcome::Success(vec!["three".to_owned()]),
    ];
    let merged = merge_outcomes(&outcomes).unwrap();
    assert_eq!(merged, vec!["one".to_owned(), "two".to_owned(), "three".to_owned()]);
}

#[test]
fn engine_reports_its_configuration() {
    let engine = engine_with(
        250,
        vec![
            provider("Alpha", 10, ProviderBehavior::Respond),
            provider("Beta", 20, ProviderBehavior::Respond),
        ],
    );
    assert_eq!(engine.provider_count(), 2);
    assert_eq!(engine.deadline_ms(), 250);
}

#[test]
fn request_and_response_payloads_carry_plain_values() {
    let request = SearchRequest { query: "phones".to_owned() };
    let response = SearchResponse { results: vec!["a".to_owned()] };
    assert_eq!(request.query, "phones");
    assert_eq!(response.results.len(), 1);
}
