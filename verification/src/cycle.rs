//! One poll cycle: classify the fetch, validate the quote, persist it.
//!
//! The process around the library calls the exchange and hands the result in
//! as a [`FetchOutcome`]; the decisions — which outcomes are failures, when a
//! quote is acceptable, what gets persisted — are made here.  A cycle never
//! stops the daemon: every failure is contained in a [`CycleOutcome`], and a
//! quote that fails validation causes no store append at all.

use vstd::prelude::*;

use crate::price::{parse_price, price_units, valid_price_string, Price};
use crate::store::{PriceObservation, SeriesStore};

verus! {

/// A quote as fetched: the three price fields as the exchange rendered them,
/// each possibly missing.
#[derive(Clone, Debug, PartialEq)]
pub struct RawQuote {
    pub bid: Option<String>,
    pub ask: Option<String>,
    pub last: Option<String>,
}

/// What the quote source produced for one cycle.
#[derive(Clone, Debug, PartialEq)]
pub enum FetchOutcome {
    /// The source answered with a quote for the asset.
    Quote(RawQuote),
    /// The source answered, but knows no data for this asset.
    NoData,
    /// The source failed: network, authentication, status or payload.
    Failed,
}

/// Why a cycle produced no observation.
#[derive(Clone, Copy, Debug, PartialEq, Eq, Structural)]
pub enum CycleError {
    /// The quote source failed outright.
    Fetch,
    /// The quote source knows no data for the asset.
    AssetNotFound,
    /// The quote arrived but a price field was missing or unparseable.
    Validation,
    /// The store refused the append.
    Persist,
}

/// The result of one cycle: an observation was persisted, or a classified
/// failure occurred and nothing was persisted.
#[derive(Clone, Debug, PartialEq)]
pub enum CycleOutcome {
    Success(PriceObservation),
    Failure(CycleError),
}

/// Whether a quote field is present and matches the accepted price grammar.
pub open spec fn field_valid(f: Option<String>) -> bool {
    f is Some && valid_price_string(f->0@)
}

/// Whether a quote is structurally acceptable: all three fields present and
/// parseable.
pub open spec fn quote_valid(q: RawQuote) -> bool {
    field_valid(q.bid) && field_valid(q.ask) && field_valid(q.last)
}

/// Parses and validates the three price fields of a quote.
///
/// All-or-nothing: the result is `Some` exactly when every field is present
/// and parseable, and then carries `(bid, ask, last)` with the exact parsed
/// values.
pub fn validate_quote(q: &RawQuote) -> (r: Option<(Price, Price, Price)>)
    ensures
        r is Some <==> quote_valid(*q),
        r is Some ==> (r->0).0.units == price_units(q.bid->0@),
        r is Some ==> (r->0).1.units == price_units(q.ask->0@),
        r is Some ==> (r->0).2.units == price_units(q.last->0@),
{
    let bid = match &q.bid {
        Some(s) => match parse_price(s.as_str()) {
            Some(p) => p,
            None => {
                return None;
            },
        },
        None => {
            return None;
        },
    };
    let ask = match &q.ask {
        Some(s) => match parse_price(s.as_str()) {
            Some(p) => p,
            None => {
                return None;
            },
        },
        None => {
            return None;
        },
    };
    let last = match &q.last {
        Some(s) => match parse_price(s.as_str()) {
            Some(p) => p,
            None => {
                return None;
            },
        },
        None => {
            return None;
        },
    };
    Some((bid, ask, last))
}

/// Decides what one cycle does with what the quote source produced: either
/// the observation to persist, or the classified failure.  Failures are
/// told apart: a source failure, an unknown asset, and an invalid quote
/// each map to their own reason.
pub fn plan_cycle(fetch: &FetchOutcome, asset: &str, observed_at: u64) -> (r: Result<
    PriceObservation,
    CycleError,
>)
    ensures
        fetch is Failed ==> r is Err && r->Err_0 == CycleError::Fetch,
        fetch is NoData ==> r is Err && r->Err_0 == CycleError::AssetNotFound,
        fetch is Quote && !quote_valid(fetch->Quote_0) ==> r is Err && r->Err_0
            == CycleError::Validation,
        fetch is Quote && quote_valid(fetch->Quote_0) ==> {
            &&& r is Ok
            &&& r->Ok_0.asset@ == asset@
            &&& r->Ok_0.bid.units == price_units(fetch->Quote_0.bid->0@)
            &&& r->Ok_0.ask.units == price_units(fetch->Quote_0.ask->0@)
            &&& r->Ok_0.last.units == price_units(fetch->Quote_0.last->0@)
            &&& r->Ok_0.observed_at == observed_at
        },
{
    match fetch {
        FetchOutcome::Failed => Err(CycleError::Fetch),
        FetchOutcome::NoData => Err(CycleError::AssetNotFound),
        FetchOutcome::Quote(q) => {
            match validate_quote(q) {
                None => Err(CycleError::Validation),
                Some((bid, ask, last)) => Ok(
                    PriceObservation { asset: asset.to_owned(), bid, ask, last, observed_at },
                ),
            }
        },
    }
}

/// Classifies the cycle once the observation has been handed to a store:
/// a refused append is a persist failure, anything else is success.
pub fn conclude_cycle(observation: PriceObservation, persisted: bool) -> (r: CycleOutcome)
    ensures
        persisted ==> r == CycleOutcome::Success(observation),
        !persisted ==> r is Failure && r->Failure_0 == CycleError::Persist,
{
    if persisted {
        CycleOutcome::Success(observation)
    } else {
        CycleOutcome::Failure(CycleError::Persist)
    }
}

/// Runs one whole cycle against a store: classify the fetch, validate the
/// quote, append the observation.  The store changes exactly when the cycle
/// succeeds — a failed fetch, an invalid quote or an unsupported asset
/// leaves it untouched — and the appended observation carries exactly the
/// parsed values.
pub fn run_cycle(store: &mut SeriesStore, fetch: &FetchOutcome, asset: &str, observed_at: u64) -> (r:
    CycleOutcome)
    requires
        old(store).wf(),
        forall|i: int| 0 <= i < old(store)@.len() ==> old(store)@[i].observed_at <= observed_at,
    ensures
        final(store).wf(),
        forall|c: Seq<char>| final(store).supported_spec(c) == old(store).supported_spec(c),
        fetch is Failed ==> r is Failure && r->Failure_0 == CycleError::Fetch,
        fetch is NoData ==> r is Failure && r->Failure_0 == CycleError::AssetNotFound,
        fetch is Quote && !quote_valid(fetch->Quote_0) ==> r is Failure && r->Failure_0
            == CycleError::Validation,
        fetch is Quote && quote_valid(fetch->Quote_0) && !old(store).supported_spec(asset@)
            ==> r is Failure && r->Failure_0 == CycleError::Persist,
        !(fetch is Quote && quote_valid(fetch->Quote_0) && old(store).supported_spec(asset@))
            ==> final(store)@ == old(store)@,
        fetch is Quote && quote_valid(fetch->Quote_0) && old(store).supported_spec(asset@)
            ==> {
            &&& r is Success
            &&& final(store)@.len() == old(store)@.len() + 1
            &&& final(store)@.subrange(0, old(store)@.len() as int) == old(store)@
            &&& final(store)@.last().asset@ == asset@
            &&& final(store)@.last().bid.units == price_units(fetch->Quote_0.bid->0@)
            &&& final(store)@.last().ask.units == price_units(fetch->Quote_0.ask->0@)
            &&& final(store)@.last().last.units == price_units(fetch->Quote_0.last->0@)
            &&& final(store)@.last().observed_at == observed_at
            &&& r->Success_0.asset@ == asset@
            &&& r->Success_0.bid == final(store)@.last().bid
            &&& r->Success_0.ask == final(store)@.last().ask
            &&& r->Success_0.last == final(store)@.last().last
            &&& r->Success_0.observed_at == observed_at
        },
{
    match plan_cycle(fetch, asset, observed_at) {
        Err(reason) => CycleOutcome::Failure(reason),
        Ok(observation) => {
            let persisted = store.save_price(
                asset,
                observation.bid,
                observation.ask,
                observation.last,
                observation.observed_at,
            );
            conclude_cycle(observation, persisted.is_ok())
        },
    }
}

} // verus!
