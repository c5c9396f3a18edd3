//! The capability interface every market-data backend must satisfy.

use vstd::prelude::*;

use crate::errors::PortfolioError;

verus! {

/// Holds when a dividend event `e` (ex-date, amount per share in cents)
/// falls inside the half-open window `[start, end)` of Unix seconds.
pub open spec fn in_window(start: int, end: int, e: (i64, u32)) -> bool {
    start <= e.0 < end
}

/// Holds when a sequence of dividend events runs in ascending ex-date
/// order.
pub open spec fn events_ascending(s: Seq<(i64, u32)>) -> bool {
    forall|i: int, j: int| 0 <= i <= j < s.len() ==> (#[trigger] s[i]).0 <= (#[trigger] s[j]).0
}

/// The contract a market-data backend must provide.
///
/// A backend is modelled by three mathematical views of the data it
/// serves: the set of tickers it knows, a partial map from ticker and
/// instant to a closing price, and the full ordered dividend history of
/// a ticker. Reads are idempotent: the views are functions of the
/// backend value alone, so the same inputs always describe the same
/// outputs.
///
/// A fourth view, `answers`, says for which tickers the backend is in a
/// state to serve its data at all: transient failures are possible
/// exactly where it does not hold, and where it holds each call's
/// result is pinned completely by the other three views. A backend
/// that can never rule transient failure out may declare it false
/// everywhere; it then promises only the unconditional clauses.
pub trait MarketDataProvider: Sized {
    /// Whether the backend knows the ticker at all.
    spec fn ticker_known(&self, ticker: Seq<char>) -> bool;

    /// The closing price, in cents, of the trading session covering the
    /// given instant; `None` when the backend has no session data there.
    spec fn price_at(&self, ticker: Seq<char>, date: int) -> Option<u32>;

    /// All dividend events of a ticker, as (ex-date in Unix seconds,
    /// amount per share in cents), in the backend's chronological order.
    spec fn dividend_events(&self, ticker: Seq<char>) -> Seq<(i64, u32)>;

    /// Whether the backend is in a state to serve this ticker's data:
    /// where this holds, calls about the ticker answer from the views
    /// above and do not fail transiently.
    spec fn answers(&self, ticker: Seq<char>) -> bool;

    /// Cheap existence check: `Ok(false)` for an unknown symbol rather
    /// than an error; errors only on transport failure, and never while
    /// the backend answers for the ticker.
    fn is_ticker_valid(&self, ticker: &String) -> (r: Result<bool, PortfolioError>)
        ensures
            (r matches Ok(b) ==> b == self.ticker_known(ticker@)),
            (r matches Err(e) ==> e == PortfolioError::ProviderUnavailable),
            self.answers(ticker@) ==> (r matches Ok(b) && b == self.ticker_known(ticker@)),
    ;

    /// The closing price for the trading session covering `date`.
    /// Fails with `NoPriceData` exactly when the backend has no session
    /// data for that instant; may also fail transiently, though never
    /// while the backend answers for the ticker.
    fn get_price_at_date(&self, ticker: &String, date: i64) -> (r: Result<
        u32,
        PortfolioError,
    >)
        ensures
            (r matches Ok(p) ==> self.price_at(ticker@, date as int) == Some(p)),
            (r matches Err(e) ==> {
                &&& e == PortfolioError::NoPriceData ==> self.price_at(
                    ticker@,
                    date as int,
                ) is None
                &&& (e == PortfolioError::NoPriceData || e == PortfolioError::ProviderUnavailable
                    || e == PortfolioError::MalformedResponse)
            }),
            self.answers(ticker@) ==> r == (match self.price_at(ticker@, date as int) {
                Some(p) => Ok::<u32, PortfolioError>(p),
                None => Err::<u32, PortfolioError>(PortfolioError::NoPriceData),
            }),
    ;

    /// All dividend events with ex-dates in `[start, end)`, ascending by
    /// date; an empty sequence, not an error, when none occurred. While
    /// the backend answers for the ticker, the call succeeds whenever
    /// its modelled window is ascending, and reports a window it cannot
    /// serve in order as malformed.
    fn get_dividends_per_share(&self, ticker: &String, start: i64, end: i64) -> (r: Result<
        Vec<(i64, u32)>,
        PortfolioError,
    >)
        ensures
            (r matches Ok(v) ==> v@ == self.dividend_events(ticker@).filter(
                |e: (i64, u32)| in_window(start as int, end as int, e),
            )),
            (r matches Ok(v) ==> events_ascending(v@)),
            (r matches Err(e) ==> (e == PortfolioError::ProviderUnavailable || e
                == PortfolioError::MalformedResponse)),
            self.answers(ticker@) ==> (if events_ascending(
                self.dividend_events(ticker@).filter(
                    |e: (i64, u32)| in_window(start as int, end as int, e),
                ),
            ) {
                r is Ok
            } else {
                r == Err::<Vec<(i64, u32)>, PortfolioError>(PortfolioError::MalformedResponse)
            }),
    ;
}

/// The closing price of one fetched trading-session window: by the
/// one-day-window convention, the last quote of the window is the
/// close. An empty window has no session data, which is exactly
/// `NoPriceData`. A backend adapter applies this to the quotes, in
/// cents and chronological order, that it fetched for one session.
pub fn closing_price(quotes: &Vec<u32>) -> (r: Result<u32, PortfolioError>)
    ensures
        quotes@.len() == 0 ==> r == Err::<u32, PortfolioError>(PortfolioError::NoPriceData),
        quotes@.len() > 0 ==> r == Ok::<u32, PortfolioError>(quotes@.last()),
{
    if quotes.len() == 0 {
        Err(PortfolioError::NoPriceData)
    } else {
        Ok(quotes[quotes.len() - 1])
    }
}

/// A dividend whose ex-date lies before the start of the window is never
/// part of the windowed sequence a backend may return: every event of the
/// window carries an ex-date at or after `start`, and strictly before
/// `end`.
pub proof fn lemma_dividend_window_exclusive<P: MarketDataProvider>(
    provider: &P,
    ticker: Seq<char>,
    start: int,
    end: int,
    i: int,
)
    requires
        0 <= i < provider.dividend_events(ticker).filter(
            |e: (i64, u32)| in_window(start, end, e),
        ).len(),
    ensures
        start <= provider.dividend_events(ticker).filter(
            |e: (i64, u32)| in_window(start, end, e),
        )[i].0 < end,
{
    broadcast use vstd::seq_lib::group_filter_ensures;

    let win = |e: (i64, u32)| in_window(start, end, e);
    assert(win(provider.dividend_events(ticker).filter(win)[i]));
}

} // verus!
