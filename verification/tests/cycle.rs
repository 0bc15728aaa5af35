use trader_daemon::cycle::{
    conclude_cycle, plan_cycle, run_cycle, validate_quote, CycleError, CycleOutcome, FetchOutcome,
    RawQuote,
};
use trader_daemon::price::parse_price;
use trader_daemon::store::SeriesStore;

fn full_quote() -> RawQuote {
    RawQuote {
        bid: Some("100.5".to_string()),
        ask: Some("101.25".to_string()),
        last: Some("100.75".to_string()),
    }
}

#[test]
fn validate_accepts_a_full_quote() {
    let (bid, ask, last) = validate_quote(&full_quote()).unwrap();
    assert_eq!(bid, parse_price("100.5").unwrap());
    assert_eq!(ask, parse_price("101.25").unwrap());
    assert_eq!(last, parse_price("100.75").unwrap());
}

#[test]
fn validate_is_all_or_nothing() {
    let mut q = full_quote();
    q.ask = None;
    assert!(validate_quote(&q).is_none());
    let mut q = full_quote();
    q.last = Some("not-a-number".to_string());
    assert!(validate_quote(&q).is_none());
}

#[test]
fn missing_ask_fails_validation_and_stores_nothing() {
    // A quote without its ask field yields a validation failure and the
    // store sees no append at all.
    let mut store = SeriesStore::new();
    let mut q = full_quote();
    q.ask = None;
    let outcome = run_cycle(&mut store, &FetchOutcome::Quote(q), "btc", 5 * 86400);
    assert_eq!(outcome, CycleOutcome::Failure(CycleError::Validation));
    let read = store.load_prices_last("btc", 1, 6).unwrap();
    assert!(read.is_empty());
}

#[test]
fn successful_cycle_persists_the_parsed_values() {
    let mut store = SeriesStore::new();
    let ts = 5 * 86400 + 300;
    let outcome = run_cycle(&mut store, &FetchOutcome::Quote(full_quote()), "btc", ts);
    match outcome {
        CycleOutcome::Success(obs) => {
            assert_eq!(obs.asset, "btc");
            assert_eq!(obs.bid, parse_price("100.5").unwrap());
            assert_eq!(obs.ask, parse_price("101.25").unwrap());
            assert_eq!(obs.last, parse_price("100.75").unwrap());
            assert_eq!(obs.observed_at, ts);
        }
        other => panic!("expected success, got {:?}", other),
    }
    let read = store.load_prices_last("btc", 1, 6).unwrap();
    assert_eq!(read, vec![parse_price("100.75").unwrap()]);
}

#[test]
fn source_failure_is_a_fetch_error() {
    let mut store = SeriesStore::new();
    let outcome = run_cycle(&mut store, &FetchOutcome::Failed, "btc", 1000);
    assert_eq!(outcome, CycleOutcome::Failure(CycleError::Fetch));
}

#[test]
fn empty_answer_is_asset_not_found() {
    let mut store = SeriesStore::new();
    let outcome = run_cycle(&mut store, &FetchOutcome::NoData, "btc", 1000);
    assert_eq!(outcome, CycleOutcome::Failure(CycleError::AssetNotFound));
}

#[test]
fn unsupported_asset_is_a_persist_failure() {
    let mut store = SeriesStore::new();
    let outcome = run_cycle(&mut store, &FetchOutcome::Quote(full_quote()), "eth", 1000);
    assert_eq!(outcome, CycleOutcome::Failure(CycleError::Persist));
}

#[test]
fn plan_cycle_builds_the_observation() {
    let obs = plan_cycle(&FetchOutcome::Quote(full_quote()), "btc", 42).unwrap();
    assert_eq!(obs.asset, "btc");
    assert_eq!(obs.observed_at, 42);
    assert_eq!(obs.bid, parse_price("100.5").unwrap());
}

#[test]
fn plan_cycle_classifies_failures() {
    assert_eq!(
        plan_cycle(&FetchOutcome::Failed, "btc", 0).unwrap_err(),
        CycleError::Fetch
    );
    assert_eq!(
        plan_cycle(&FetchOutcome::NoData, "btc", 0).unwrap_err(),
        CycleError::AssetNotFound
    );
    let mut q = full_quote();
    q.bid = None;
    assert_eq!(
        plan_cycle(&FetchOutcome::Quote(q), "btc", 0).unwrap_err(),
        CycleError::Validation
    );
}

#[test]
fn conclude_cycle_maps_persistence_to_outcome() {
    let obs = plan_cycle(&FetchOutcome::Quote(full_quote()), "btc", 7).unwrap();
    assert_eq!(
        conclude_cycle(obs.clone(), true),
        CycleOutcome::Success(obs.clone())
    );
    assert_eq!(
        conclude_cycle(obs, false),
        CycleOutcome::Failure(CycleError::Persist)
    );
}
