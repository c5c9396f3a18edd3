//! A deterministic, in-memory market-data backend.
//!
//! It serves exactly the table of data it was built with, so every read
//! is trivially idempotent. It is the reference implementation of the
//! data-source contract and the natural backend for tests; it is also
//! what a thin I/O shell can fill with fetched data before handing the
//! valuation work to the verified code.

use vstd::prelude::*;

use crate::errors::PortfolioError;
use crate::market_data_provider::{events_ascending, in_window, MarketDataProvider};

verus! {

/// One closing price: a ticker had price `price` (cents) for the
/// trading session covering the instant `date` (Unix seconds).
#[derive(Debug)]
pub struct PricePoint {
    pub ticker: String,
    pub date: i64,
    pub price: u32,
}

/// One dividend event: a ticker paid `amount` cents per share with
/// ex-date `ex_date` (Unix seconds).
#[derive(Debug)]
pub struct DividendEvent {
    pub ticker: String,
    pub ex_date: i64,
    pub amount: u32,
}

/// A backend serving fixed tables: the tickers it knows, the closing
/// prices it has, and the dividend history it has, expected in
/// ascending ex-date order. It answers for a ticker exactly when
/// `available` holds and the ticker is not listed in `unreachable`:
/// with `available` false every call fails with `ProviderUnavailable`,
/// and so does every call about an `unreachable` ticker — which lets a
/// caller exercise the transient-failure paths deterministically, and
/// lets an I/O shell mark the tickers whose data it could not fetch.
#[derive(Debug)]
pub struct FixedProvider {
    pub known: Vec<String>,
    pub prices: Vec<PricePoint>,
    pub dividends: Vec<DividendEvent>,
    pub unreachable: Vec<String>,
    pub available: bool,
}

/// Whether the ticker `t` stands in the table `v`.
pub open spec fn has_ticker(v: Seq<String>, t: Seq<char>) -> bool {
    exists|i: int| 0 <= i < v.len() && v[i]@ == t
}

/// Table membership, by one scan.
fn contains_ticker(v: &Vec<String>, t: &String) -> (b: bool)
    ensures
        b == has_ticker(v@, t@),
{
    let mut i: usize = 0;
    while i < v.len()
        invariant
            i <= v.len(),
            forall|k: int| 0 <= k < i ==> v@[k]@ != t@,
        decreases v.len() - i,
    {
        if v[i] == *t {
            return true;
        }
        i = i + 1;
    }
    false
}

/// The plain value of a stored dividend event: (ex-date, amount).
pub open spec fn event_of(e: DividendEvent) -> (i64, u32) {
    (e.ex_date, e.amount)
}

/// The dividend events of ticker `t` among the stored events `s`, as
/// plain (ex-date, amount) pairs, in stored order.
pub open spec fn events_for(s: Seq<DividendEvent>, t: Seq<char>) -> Seq<(i64, u32)>
    decreases s.len(),
{
    if s.len() == 0 {
        Seq::empty()
    } else {
        let rest = events_for(s.drop_last(), t);
        if s.last().ticker@ == t {
            rest.push(event_of(s.last()))
        } else {
            rest
        }
    }
}

/// The events of ticker `t` among `s` whose ex-dates fall in
/// `[start, end)`, in stored order: what one collecting pass gathers.
pub open spec fn win_events(s: Seq<DividendEvent>, t: Seq<char>, start: int, end: int) -> Seq<
    (i64, u32),
>
    decreases s.len(),
{
    if s.len() == 0 {
        Seq::empty()
    } else {
        let rest = win_events(s.drop_last(), t, start, end);
        if s.last().ticker@ == t && in_window(start, end, event_of(s.last())) {
            rest.push(event_of(s.last()))
        } else {
            rest
        }
    }
}

/// Gathering the in-window events of a ticker in one pass is the same
/// as first taking all its events and then filtering by the window.
pub proof fn lemma_win_events_filter(s: Seq<DividendEvent>, t: Seq<char>, start: int, end: int)
    ensures
        win_events(s, t, start, end) == events_for(s, t).filter(
            |e: (i64, u32)| in_window(start, end, e),
        ),
    decreases s.len(),
{
    let win = |e: (i64, u32)| in_window(start, end, e);
    if s.len() == 0 {
        assert(events_for(s, t).filter(win) =~= Seq::<(i64, u32)>::empty());
    } else {
        lemma_win_events_filter(s.drop_last(), t, start, end);
        let rest = events_for(s.drop_last(), t);
        if s.last().ticker@ == t {
            let x = event_of(s.last());
            let fs = rest.push(x);
            assert(events_for(s, t) == fs);
            assert(fs.drop_last() =~= rest);
            assert(fs.last() == x);
            reveal_with_fuel(Seq::filter, 2);
            assert(fs.filter(win) == if win(x) {
                rest.filter(win).push(x)
            } else {
                rest.filter(win)
            });
        }
    }
}

/// The first stored price of ticker `t` at instant `d` among `s`, if any.
pub open spec fn price_lookup(s: Seq<PricePoint>, t: Seq<char>, d: int) -> Option<u32>
    decreases s.len(),
{
    if s.len() == 0 {
        None
    } else if s[0].ticker@ == t && s[0].date == d {
        Some(s[0].price)
    } else {
        price_lookup(s.drop_first(), t, d)
    }
}

impl MarketDataProvider for FixedProvider {
    /// A ticker is known when it stands in the `known` table.
    open spec fn ticker_known(&self, ticker: Seq<char>) -> bool {
        has_ticker(self.known@, ticker)
    }

    /// The backend answers for a ticker when it is available as a whole
    /// and the ticker is not marked unreachable.
    open spec fn answers(&self, ticker: Seq<char>) -> bool {
        self.available && !has_ticker(self.unreachable@, ticker)
    }

    /// The price table, looked up by exact ticker and instant.
    open spec fn price_at(&self, ticker: Seq<char>, date: int) -> Option<u32> {
        price_lookup(self.prices@, ticker, date)
    }

    /// The dividend table, restricted to one ticker, in stored order.
    open spec fn dividend_events(&self, ticker: Seq<char>) -> Seq<(i64, u32)> {
        events_for(self.dividends@, ticker)
    }

    fn is_ticker_valid(&self, ticker: &String) -> (r: Result<bool, PortfolioError>) {
        if !self.available || contains_ticker(&self.unreachable, ticker) {
            return Err(PortfolioError::ProviderUnavailable);
        }
        Ok(contains_ticker(&self.known, ticker))
    }

    fn get_price_at_date(&self, ticker: &String, date: i64) -> (r: Result<u32, PortfolioError>) {
        if !self.available || contains_ticker(&self.unreachable, ticker) {
            return Err(PortfolioError::ProviderUnavailable);
        }
        proof {
            assert(self.prices@.skip(0) =~= self.prices@);
        }
        let mut i: usize = 0;
        while i < self.prices.len()
            invariant
                i <= self.prices.len(),
                price_lookup(self.prices@, ticker@, date as int) == price_lookup(
                    self.prices@.skip(i as int),
                    ticker@,
                    date as int,
                ),
            decreases self.prices.len() - i,
        {
            let p = &self.prices[i];
            if p.ticker == *ticker && p.date == date {
                return Ok(p.price);
            }
            proof {
                assert(self.prices@.skip(i as int).drop_first() =~= self.prices@.skip(
                    i as int + 1,
                ));
            }
            i = i + 1;
        }
        proof {
            assert(self.prices@.skip(self.prices@.len() as int) =~= Seq::<PricePoint>::empty());
        }
        Err(PortfolioError::NoPriceData)
    }

    fn get_dividends_per_share(&self, ticker: &String, start: i64, end: i64) -> (r: Result<
        Vec<(i64, u32)>,
        PortfolioError,
    >) {
        if !self.available || contains_ticker(&self.unreachable, ticker) {
            return Err(PortfolioError::ProviderUnavailable);
        }
        let mut out: Vec<(i64, u32)> = Vec::new();
        let mut i: usize = 0;
        while i < self.dividends.len()
            invariant
                i <= self.dividends.len(),
                out@ == win_events(
                    self.dividends@.take(i as int),
                    ticker@,
                    start as int,
                    end as int,
                ),
            decreases self.dividends.len() - i,
        {
            proof {
                assert(self.dividends@.take(i as int + 1).drop_last() =~= self.dividends@.take(
                    i as int,
                ));
                assert(self.dividends@.take(i as int + 1).last() == self.dividends@[i as int]);
            }
            let e = &self.dividends[i];
            if e.ticker == *ticker && start <= e.ex_date && e.ex_date < end {
                out.push((e.ex_date, e.amount));
            }
            i = i + 1;
        }
        proof {
            assert(self.dividends@.take(self.dividends@.len() as int) =~= self.dividends@);
            lemma_win_events_filter(self.dividends@, ticker@, start as int, end as int);
        }
        // The contract owes callers an ascending window. The table is
        // expected in ascending ex-date order; a table that is not is
        // malformed data, reported as such rather than served.
        let mut k: usize = 1;
        while k < out.len()
            invariant
                1 <= k,
                out@ == self.dividend_events(ticker@).filter(
                    |e: (i64, u32)| in_window(start as int, end as int, e),
                ),
                forall|a: int, b: int|
                    0 <= a <= b < k && b < out@.len() ==> (#[trigger] out@[a]).0 <= (
                    #[trigger] out@[b]).0,
            decreases out.len() - k,
        {
            if out[k - 1].0 > out[k].0 {
                proof {
                    assert(!events_ascending(out@)) by {
                        assert(0 <= k - 1 <= k < out@.len());
                        assert((out@[k as int - 1]).0 > (out@[k as int]).0);
                    }
                }
                return Err(PortfolioError::MalformedResponse);
            }
            k = k + 1;
        }
        Ok(out)
    }
}

} // verus!
