//! A quantity of a stock acquired at a price, resolved from raw input.

use vstd::prelude::*;

use crate::errors::PortfolioError;
use crate::market_data_provider::{events_ascending, in_window, MarketDataProvider};
use crate::stock::{Stock, StockOrigin};

verus! {

/// One raw purchase record as it arrives from a portfolio file:
/// a symbol, a quantity, the price actually paid (in cents), and the
/// calendar day of the purchase as a day number counted from the Unix
/// epoch. Transient input: it is consumed once, by resolution.
#[derive(Debug)]
pub struct RawHolding {
    pub symbol: String,
    pub quantity: u32,
    pub price_paid: u32,
    pub date: i32,
}

/// An ordered set of raw purchase records, as a portfolio file lists them.
#[derive(Debug)]
pub struct RawPortfolio {
    pub holdings: Vec<RawHolding>,
}

/// A resolved position: a stock and how many shares of it are held.
/// Never mutated after creation; every later valuation is a pure
/// function of the holding and a query date.
#[derive(Debug)]
pub struct Holding {
    pub stock: Stock,
    pub quantity: u32,
}

/// The instant, in Unix seconds, of the market-close convention for a
/// calendar day: 16:00 UTC of the day with that epoch day number.
pub open spec fn market_close_spec(day: int) -> int {
    day * 86400 + 57600
}

/// Normalizes a calendar day to the market-close instant of that day,
/// so that a date without a time of day never produces an ambiguous
/// day boundary.
pub fn market_close(day: i32) -> (t: i64)
    ensures
        t == market_close_spec(day as int),
{
    (day as i64) * 86400 + 57600
}

/// What resolving the raw record `raw` against `provider` may return.
///
/// A success carries exactly the record's own data: the symbol as
/// ticker, the price paid, the quantity, the purchase day normalized to
/// market close, origin `UserDefined` — and is possible only when the
/// provider knows the symbol. An empty or unknown symbol yields
/// `InvalidTicker`, never a generic error; the only other failure is a
/// transient `ProviderUnavailable`, and while the provider answers for
/// the symbol the result is pinned completely: the holding for a known
/// symbol, `InvalidTicker` for an unknown one.
pub open spec fn resolves_to<P: MarketDataProvider>(
    provider: &P,
    raw: RawHolding,
    r: Result<Holding, PortfolioError>,
) -> bool {
    &&& (r matches Ok(h) ==> {
        &&& h.stock.ticker@ == raw.symbol@
        &&& h.stock.price == raw.price_paid
        &&& h.stock.date == market_close_spec(raw.date as int)
        &&& h.stock.origin == StockOrigin::UserDefined
        &&& h.stock.wf()
        &&& h.quantity == raw.quantity
        &&& provider.ticker_known(raw.symbol@)
    })
    &&& (raw.symbol@.len() == 0 ==> r == Err::<Holding, PortfolioError>(
        PortfolioError::InvalidTicker,
    ))
    &&& (raw.symbol@.len() > 0 && r == Err::<Holding, PortfolioError>(
        PortfolioError::InvalidTicker,
    ) ==> !provider.ticker_known(raw.symbol@))
    &&& (!provider.ticker_known(raw.symbol@) ==> !(r is Ok))
    &&& (r matches Err(e) ==> (e == PortfolioError::InvalidTicker || e
        == PortfolioError::ProviderUnavailable))
    &&& (provider.answers(raw.symbol@) && raw.symbol@.len() > 0 ==> (if provider.ticker_known(
        raw.symbol@,
    ) {
        r is Ok
    } else {
        r == Err::<Holding, PortfolioError>(PortfolioError::InvalidTicker)
    }))
}

/// The total payout, in cents, of a sequence of dividend events for
/// `quantity` shares: the sum of amount-per-share times quantity.
pub open spec fn sum_payout(events: Seq<(i64, u32)>, quantity: u32) -> int
    decreases events.len(),
{
    if events.len() == 0 {
        0
    } else {
        sum_payout(events.drop_last(), quantity) + events.last().1 * quantity
    }
}

impl Clone for Holding {
    /// A clone carries exactly the same stock and quantity.
    fn clone(&self) -> (r: Self)
        ensures
            r == *self,
    {
        Holding { stock: self.stock.clone(), quantity: self.quantity }
    }
}

impl Holding {
    /// Wraps an already-built stock and a share count into a holding.
    pub fn new(stock: Stock, quantity: u32) -> (r: Self)
        ensures
            r.stock == stock,
            r.quantity == quantity,
    {
        Holding { stock, quantity }
    }

    /// Resolves a raw purchase record against a data source: the
    /// purchase day is normalized to its market-close instant, the
    /// symbol is validated, and the price paid is taken as asserted by
    /// the user. The postcondition is exactly [`resolves_to`].
    pub fn from_raw<P: MarketDataProvider>(raw: &RawHolding, provider: &P) -> (r: Result<
        Holding,
        PortfolioError,
    >)
        ensures
            resolves_to(provider, *raw, r),
    {
        let date = market_close(raw.date);
        match Stock::new(provider, &raw.symbol, raw.price_paid, date) {
            Ok(stock) => Ok(Holding { stock, quantity: raw.quantity }),
            Err(e) => Err(e),
        }
    }

    /// The value of the position at acquisition: quantity times the
    /// acquisition price, exactly, in cents. Pure: no data-source call.
    pub fn initial_value(&self) -> (r: u64)
        ensures
            r == self.quantity * self.stock.price,
    {
        proof {
            vstd::arithmetic::mul::lemma_mul_upper_bound(
                self.quantity as int,
                u32::MAX as int,
                self.stock.price as int,
                u32::MAX as int,
            );
        }
        (self.quantity as u64) * (self.stock.price as u64)
    }

    /// The value of the position at an arbitrary instant: quantity
    /// times the closing price the data source reports for that
    /// instant. The acquisition price is deliberately not reused.
    ///
    /// A success carries exactly quantity times the price the source
    /// models; `NoPriceData` comes exactly when the source models no
    /// session there; transient failures pass through, though never
    /// while the source answers for the ticker.
    pub fn value_with_date<P: MarketDataProvider>(&self, provider: &P, date: i64) -> (r: Result<
        u64,
        PortfolioError,
    >)
        ensures
            (r matches Ok(v) ==> provider.price_at(self.stock.ticker@, date as int) matches Some(p)
                && v == self.quantity * p),
            (r matches Err(e) ==> {
                &&& e == PortfolioError::NoPriceData ==> provider.price_at(
                    self.stock.ticker@,
                    date as int,
                ) is None
                &&& (e == PortfolioError::NoPriceData || e == PortfolioError::ProviderUnavailable
                    || e == PortfolioError::MalformedResponse)
            }),
            provider.answers(self.stock.ticker@) ==> (match provider.price_at(
                self.stock.ticker@,
                date as int,
            ) {
                Some(_) => r is Ok,
                None => r == Err::<u64, PortfolioError>(PortfolioError::NoPriceData),
            }),
    {
        match provider.get_price_at_date(&self.stock.ticker, date) {
            Ok(price) => {
                proof {
                    vstd::arithmetic::mul::lemma_mul_upper_bound(
                        self.quantity as int,
                        u32::MAX as int,
                        price as int,
                        u32::MAX as int,
                    );
                }
                Ok((self.quantity as u64) * (price as u64))
            },
            Err(e) => Err(e),
        }
    }

    /// A copy of the underlying stock.
    pub fn stock(&self) -> (r: Stock)
        ensures
            r == self.stock,
    {
        self.stock.clone()
    }

    /// The dividend income, in cents, accrued by this position over
    /// `[acquisition date, end_date)`: the sum of amount-per-share times
    /// quantity over every dividend event of the window. The window
    /// starts at the acquisition instant, so a dividend paid before
    /// ownership is excluded by construction. While the source answers
    /// for the ticker, the sum is owed whenever the modelled window is
    /// ascending; a window the source cannot serve in order surfaces as
    /// `MalformedResponse`.
    pub fn dividend_generated<P: MarketDataProvider>(&self, provider: &P, end_date: i64) -> (r:
        Result<u128, PortfolioError>)
        ensures
            (r matches Ok(total) ==> total == sum_payout(
                provider.dividend_events(self.stock.ticker@).filter(
                    |e: (i64, u32)| in_window(self.stock.date as int, end_date as int, e),
                ),
                self.quantity,
            )),
            (r matches Err(e) ==> (e == PortfolioError::ProviderUnavailable || e
                == PortfolioError::MalformedResponse)),
            provider.answers(self.stock.ticker@) ==> (if events_ascending(
                provider.dividend_events(self.stock.ticker@).filter(
                    |e: (i64, u32)| in_window(self.stock.date as int, end_date as int, e),
                ),
            ) {
                r is Ok
            } else {
                r == Err::<u128, PortfolioError>(PortfolioError::MalformedResponse)
            }),
    {
        match provider.get_dividends_per_share(&self.stock.ticker, self.stock.date, end_date) {
            Err(e) => Err(e),
            Ok(divs) => {
                let ghost all = divs@;
                let mut total: u128 = 0;
                let mut i: usize = 0;
                while i < divs.len()
                    invariant
                        i <= divs.len(),
                        divs@ == all,
                        total == sum_payout(all.take(i as int), self.quantity),
                        total <= (i as int) * ((u32::MAX as int) * (u32::MAX as int)),
                    decreases divs.len() - i,
                {
                    let (_, amount) = divs[i];
                    proof {
                        let m2 = (u32::MAX as int) * (u32::MAX as int);
                        vstd::arithmetic::mul::lemma_mul_upper_bound(
                            amount as int,
                            u32::MAX as int,
                            self.quantity as int,
                            u32::MAX as int,
                        );
                        vstd::arithmetic::mul::lemma_mul_inequality(
                            i as int + 1,
                            u64::MAX as int,
                            m2,
                        );
                        assert(all.take(i as int + 1).drop_last() =~= all.take(i as int));
                        assert(all.take(i as int + 1).last() == all[i as int]);
                    }
                    total = total + (amount as u128) * (self.quantity as u128);
                    i = i + 1;
                }
                proof {
                    assert(all.take(divs@.len() as int) =~= all);
                }
                Ok(total)
            },
        }
    }
}

/// Initial value is linear in the quantity: for a fixed stock, a
/// holding of `q1 + q2` shares is worth at acquisition exactly what a
/// holding of `q1` shares and a holding of `q2` shares are worth
/// together.
pub proof fn lemma_initial_value_linear(h1: Holding, h2: Holding, h12: Holding)
    requires
        h1.stock == h12.stock,
        h2.stock == h12.stock,
        h12.quantity == h1.quantity + h2.quantity,
    ensures
        h12.quantity * h12.stock.price == h1.quantity * h1.stock.price + h2.quantity
            * h2.stock.price,
{
    let q1 = h1.quantity as int;
    let q2 = h2.quantity as int;
    let p = h12.stock.price as int;
    assert((q1 + q2) * p == q1 * p + q2 * p) by (nonlinear_arith);
}

} // verus!
