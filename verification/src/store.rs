//! The reference model of the time-series store.
//!
//! The daemon persists one observation per successful cycle and can read the
//! most recent window back.  This module states what those two operations
//! mean — which currencies are accepted, which observations a window holds,
//! and in what order they come back — as a verified in-memory store.  A
//! production engine sits behind the same contract and is driven by the
//! process around the library.

use vstd::prelude::*;

use crate::price::Price;

verus! {

/// One persisted quote: the three prices of an asset at a capture time,
/// immutable once created.  `observed_at` counts whole seconds since the
/// epoch the process uses.
#[derive(Clone, Debug, PartialEq)]
pub struct PriceObservation {
    pub asset: String,
    pub bid: Price,
    pub ask: Price,
    pub last: Price,
    pub observed_at: u64,
}

/// Why a store operation was refused.
#[derive(Clone, Copy, Debug, PartialEq, Eq, Structural)]
pub enum StoreError {
    UnsupportedCurrency,
}

/// The day number a capture time falls in.
pub open spec fn day_of(ts: u64) -> int {
    ts as int / 86400
}

/// Whether an observation's capture time falls in the day window
/// `[lo_day, hi_day)`.
pub open spec fn in_window(o: PriceObservation, lo_day: int, hi_day: int) -> bool {
    lo_day <= day_of(o.observed_at) < hi_day
}

/// The last-prices of the observations of `s` that fall in the window,
/// most recent first.
pub open spec fn recent_of(s: Seq<PriceObservation>, lo_day: int, hi_day: int) -> Seq<Price>
    decreases s.len(),
{
    if s.len() == 0 {
        Seq::empty()
    } else if in_window(s.last(), lo_day, hi_day) {
        seq![s.last().last] + recent_of(s.drop_last(), lo_day, hi_day)
    } else {
        recent_of(s.drop_last(), lo_day, hi_day)
    }
}

/// The in-memory series store: a chronological sequence of observations for
/// the currencies it supports.
pub struct SeriesStore {
    observations: Vec<PriceObservation>,
    currencies_supported: Vec<String>,
}

impl View for SeriesStore {
    type V = Seq<PriceObservation>;

    closed spec fn view(&self) -> Seq<PriceObservation> {
        self.observations@
    }
}

impl SeriesStore {
    /// Whether the store accepts observations for this currency.
    pub closed spec fn supported_spec(self, currency: Seq<char>) -> bool {
        exists|i: int|
            0 <= i < self.currencies_supported@.len() && self.currencies_supported@[i]@ == currency
    }

    /// The store's invariant: observations sit in chronological order.
    pub open spec fn wf(self) -> bool {
        forall|i: int, j: int|
            0 <= i <= j < self@.len() ==> self@[i].observed_at <= self@[j].observed_at
    }

    /// A fresh store: empty, supporting exactly the one currency this
    /// process logs.
    pub fn new() -> (r: SeriesStore)
        ensures
            r@ =~= Seq::<PriceObservation>::empty(),
            r.wf(),
            forall|c: Seq<char>| r.supported_spec(c) <==> c == "btc"@,
    {
        let mut currencies: Vec<String> = Vec::new();
        currencies.push("btc".to_owned());
        let r = SeriesStore { observations: Vec::new(), currencies_supported: currencies };
        proof {
            assert forall|c: Seq<char>| r.supported_spec(c) <==> c == "btc"@ by {
                if r.supported_spec(c) {
                    let i = choose|i: int|
                        0 <= i < r.currencies_supported@.len()
                            && r.currencies_supported@[i]@ == c;
                    assert(i == 0);
                } else if c == "btc"@ {
                    assert(r.currencies_supported@[0]@ == c);
                }
            }
        }
        r
    }

    /// Whether the store accepts observations for `currency`.
    pub fn supports(&self, currency: &str) -> (r: bool)
        ensures
            r == self.supported_spec(currency@),
    {
        let owned: String = currency.to_owned();
        let n = self.currencies_supported.len();
        let mut i: usize = 0;
        while i < n
            invariant
                i <= n,
                n == self.currencies_supported@.len(),
                owned@ == currency@,
                forall|j: int| 0 <= j < i ==> self.currencies_supported@[j]@ != currency@,
            decreases n - i,
        {
            if self.currencies_supported[i] == owned {
                return true;
            }
            i += 1;
        }
        false
    }

    /// Appends one observation, provided its currency is supported and its
    /// capture time does not precede anything already stored.  The append is
    /// all-or-nothing: on a refusal the store is unchanged.
    pub fn save_price(
        &mut self,
        currency: &str,
        bid: Price,
        ask: Price,
        last: Price,
        observed_at: u64,
    ) -> (r: Result<(), StoreError>)
        requires
            old(self).wf(),
            forall|i: int| 0 <= i < old(self)@.len() ==> old(self)@[i].observed_at <= observed_at,
        ensures
            final(self).wf(),
            r is Ok <==> old(self).supported_spec(currency@),
            r is Err ==> final(self)@ == old(self)@ && r->Err_0 == StoreError::UnsupportedCurrency,
            r is Ok ==> final(self)@.len() == old(self)@.len() + 1,
            r is Ok ==> final(self)@.subrange(0, old(self)@.len() as int) == old(self)@,
            r is Ok ==> final(self)@.last().asset@ == currency@,
            r is Ok ==> final(self)@.last().bid == bid,
            r is Ok ==> final(self)@.last().ask == ask,
            r is Ok ==> final(self)@.last().last == last,
            r is Ok ==> final(self)@.last().observed_at == observed_at,
            forall|c: Seq<char>|
                final(self).supported_spec(c) == old(self).supported_spec(c),
    {
        if !self.supports(currency) {
            return Err(StoreError::UnsupportedCurrency);
        }
        let obs = PriceObservation { asset: currency.to_owned(), bid, ask, last, observed_at };
        self.observations.push(obs);
        proof {
            assert(final(self)@.subrange(0, old(self)@.len() as int) =~= old(self)@);
            assert forall|c: Seq<char>|
                self.supported_spec(c) == old(self).supported_spec(c) by {
                if self.supported_spec(c) {
                    let i = choose|i: int|
                        0 <= i < self.currencies_supported@.len()
                            && self.currencies_supported@[i]@ == c;
                    assert(old(self).currencies_supported@[i]@ == c);
                }
                if old(self).supported_spec(c) {
                    let i = choose|i: int|
                        0 <= i < old(self).currencies_supported@.len()
                            && old(self).currencies_supported@[i]@ == c;
                    assert(self.currencies_supported@[i]@ == c);
                }
            }
        }
        Ok(())
    }

    /// Reads back the last prices of the most recent `days` whole days
    /// before `today_day` (the current day number), most recent first.
    pub fn load_prices_last(&self, currency: &str, days: u64, today_day: u64) -> (r: Result<
        Vec<Price>,
        StoreError,
    >)
        ensures
            r is Ok <==> self.supported_spec(currency@),
            r is Err ==> r->Err_0 == StoreError::UnsupportedCurrency,
            r is Ok ==> r->Ok_0@ =~= recent_of(self@, today_day - days, today_day as int),
    {
        if !self.supports(currency) {
            return Err(StoreError::UnsupportedCurrency);
        }
        let ghost lo: int = today_day - days;
        let ghost hi: int = today_day as int;
        let n = self.observations.len();
        let mut out: Vec<Price> = Vec::new();
        let mut i: usize = n;
        proof {
            assert(self@.subrange(0, n as int) =~= self@);
        }
        while i > 0
            invariant
                i <= n,
                n == self@.len(),
                lo == today_day - days,
                hi == today_day,
                out@ + recent_of(self@.subrange(0, i as int), lo, hi) =~= recent_of(
                    self@,
                    lo,
                    hi,
                ),
            decreases i,
        {
            let o = &self.observations[i - 1];
            let d: u64 = o.observed_at / 86400;
            proof {
                let pre = self@.subrange(0, i as int);
                assert(pre.drop_last() =~= self@.subrange(0, i - 1));
                assert(pre.last() == self@[i - 1]);
            }
            if d < today_day && (days >= today_day || d >= today_day - days) {
                out.push(o.last);
                proof {
                    assert(in_window(self@[i - 1], lo, hi));
                    assert(out@ + recent_of(self@.subrange(0, i - 1), lo, hi) =~= recent_of(
                        self@,
                        lo,
                        hi,
                    ));
                }
            } else {
                proof {
                    assert(!in_window(self@[i - 1], lo, hi));
                }
            }
            i = i - 1;
        }
        proof {
            assert(recent_of(self@.subrange(0, 0), lo, hi) =~= Seq::<Price>::empty());
            assert(out@ =~= recent_of(self@, lo, hi));
        }
        Ok(out)
    }
}

/// The round-trip law: when every stored observation falls inside the
/// requested window, reading the window back returns exactly the appended
/// last-prices, unchanged, in reverse-chronological order.
pub proof fn lemma_round_trip(s: Seq<PriceObservation>, lo_day: int, hi_day: int)
    requires
        forall|i: int| 0 <= i < s.len() ==> in_window(#[trigger] s[i], lo_day, hi_day),
    ensures
        recent_of(s, lo_day, hi_day) =~= s.reverse().map_values(|o: PriceObservation| o.last),
    decreases s.len(),
{
    if s.len() == 0 {
    } else {
        assert(in_window(s[s.len() - 1], lo_day, hi_day));
        assert forall|i: int| 0 <= i < s.drop_last().len() implies in_window(
            #[trigger] s.drop_last()[i],
            lo_day,
            hi_day,
        ) by {
            assert(s.drop_last()[i] == s[i]);
        }
        lemma_round_trip(s.drop_last(), lo_day, hi_day);
        let f = |o: PriceObservation| o.last;
        assert forall|i: int|
            0 <= i < s.len() implies (seq![s.last().last] + s.drop_last().reverse().map_values(
            f,
        ))[i] == s.reverse().map_values(f)[i] by {
            if i > 0 {
                assert(s.drop_last().reverse()[i - 1] == s[s.len() - 1 - i]);
            }
            assert(s.reverse()[i] == s[s.len() - 1 - i]);
        }
        assert(seq![s.last().last] + s.drop_last().reverse().map_values(f) =~= s.reverse()
            .map_values(f));
    }
}

} // verus!
