//! Derived metrics over already-resolved holdings: return on
//! investment, portfolio value at a date, and total dividend income.
//!
//! Aggregation follows the same partial-success policy as the loader:
//! every holding is valued independently, each outcome stays
//! attributable to its holding and keeps the input order, and the
//! aggregate sums exactly the successful outcomes.

use vstd::prelude::*;

use crate::errors::PortfolioError;
use crate::holding::{sum_payout, Holding};
use crate::market_data_provider::{events_ascending, in_window, MarketDataProvider};

verus! {

/// Return on investment, as a fixed-point percentage in hundredths of
/// a percent, truncated toward zero: `(current - initial) / initial`,
/// scaled by 100 for the percentage and by 100 again for its two
/// decimal places. Meaningful only for a nonzero initial value.
pub open spec fn roi_spec(initial: int, current: int) -> int
    recommends
        initial > 0,
{
    if current >= initial {
        ((current - initial) * 10000) / initial
    } else {
        -(((initial - current) * 10000) / initial)
    }
}

/// Return on investment of growing `initial_value` into
/// `current_value`, in hundredths of a percent, truncated toward zero.
///
/// Defined exactly for a nonzero initial value; a zero initial value is
/// reported as `DivisionByZero`, never computed around.
pub fn roi(initial_value: u64, current_value: u64) -> (r: Result<i128, PortfolioError>)
    ensures
        initial_value == 0 <==> r == Err::<i128, PortfolioError>(PortfolioError::DivisionByZero),
        initial_value != 0 ==> (r matches Ok(v) && v == roi_spec(
            initial_value as int,
            current_value as int,
        )),
{
    if initial_value == 0 {
        return Err(PortfolioError::DivisionByZero);
    }
    if current_value >= initial_value {
        let num: u128 = (current_value - initial_value) as u128 * 10000;
        let q: u128 = num / (initial_value as u128);
        proof {
            vstd::arithmetic::div_mod::lemma_div_is_ordered_by_denominator(num as int, 1,
                initial_value as int);
        }
        Ok(q as i128)
    } else {
        let num: u128 = (initial_value - current_value) as u128 * 10000;
        let q: u128 = num / (initial_value as u128);
        proof {
            vstd::arithmetic::div_mod::lemma_div_is_ordered_by_denominator(num as int, 1,
                initial_value as int);
        }
        Ok(-(q as i128))
    }
}

/// Return on investment of an unchanged value is zero: for any nonzero
/// initial value `v`, `roi(v, v)` is exactly zero.
pub proof fn lemma_roi_unchanged(v: u64)
    requires
        v != 0,
    ensures
        roi_spec(v as int, v as int) == 0,
{
}

/// What valuing the holding `h` at instant `date` against `provider`
/// may return: a success is exactly quantity times the price the
/// provider models at that instant; `NoPriceData` comes exactly when
/// the provider models none; transient failures pass through, and
/// while the provider answers for the ticker the result is pinned
/// completely by the modelled price.
pub open spec fn value_outcome<P: MarketDataProvider>(
    provider: &P,
    h: Holding,
    date: int,
    r: Result<u64, PortfolioError>,
) -> bool {
    &&& (r matches Ok(v) ==> provider.price_at(h.stock.ticker@, date) matches Some(p) && v
        == h.quantity * p)
    &&& (r matches Err(e) ==> {
        &&& e == PortfolioError::NoPriceData ==> provider.price_at(h.stock.ticker@, date) is None
        &&& (e == PortfolioError::NoPriceData || e == PortfolioError::ProviderUnavailable || e
            == PortfolioError::MalformedResponse)
    })
    &&& (provider.answers(h.stock.ticker@) ==> (match provider.price_at(h.stock.ticker@, date) {
        Some(_) => r is Ok,
        None => r == Err::<u64, PortfolioError>(PortfolioError::NoPriceData),
    }))
}

/// What computing the dividend income of holding `h` up to `end` may
/// return: a success is exactly the payout of the provider's dividend
/// window `[acquisition date, end)` for the holding's quantity. While
/// the provider answers for the ticker, the sum is owed whenever the
/// modelled window is ascending, and an out-of-order window surfaces
/// as `MalformedResponse`.
pub open spec fn dividend_outcome<P: MarketDataProvider>(
    provider: &P,
    h: Holding,
    end: int,
    r: Result<u128, PortfolioError>,
) -> bool {
    &&& (r matches Ok(total) ==> total == sum_payout(
        provider.dividend_events(h.stock.ticker@).filter(
            |e: (i64, u32)| in_window(h.stock.date as int, end, e),
        ),
        h.quantity,
    ))
    &&& (r matches Err(e) ==> (e == PortfolioError::ProviderUnavailable || e
        == PortfolioError::MalformedResponse))
    &&& (provider.answers(h.stock.ticker@) ==> (if events_ascending(
        provider.dividend_events(h.stock.ticker@).filter(
            |e: (i64, u32)| in_window(h.stock.date as int, end, e),
        ),
    ) {
        r is Ok
    } else {
        r == Err::<u128, PortfolioError>(PortfolioError::MalformedResponse)
    }))
}

/// The structured result of analysing one holding, ready for an
/// external presentation layer: the core computes it but does not
/// format it.
#[derive(Debug)]
pub struct HoldingReport {
    pub ticker: String,
    pub initial_value: u64,
    pub current_value: Result<u64, PortfolioError>,
    pub roi: Result<i128, PortfolioError>,
    pub dividend_income: Result<u128, PortfolioError>,
}

/// What the report of holding `h`, valued at `date` with dividends
/// accrued over `[acquisition date, date)`, must hold: the holding's
/// own ticker and exact initial value, a current value and dividend
/// income satisfying their outcome contracts, and a return on
/// investment computed from the initial and current values — or
/// carrying the error that made the current value unavailable.
pub open spec fn report_for<P: MarketDataProvider>(
    provider: &P,
    h: Holding,
    date: int,
    r: HoldingReport,
) -> bool {
    &&& r.ticker@ == h.stock.ticker@
    &&& r.initial_value == h.quantity * h.stock.price
    &&& value_outcome(provider, h, date, r.current_value)
    &&& dividend_outcome(provider, h, date, r.dividend_income)
    &&& (r.current_value matches Ok(v) ==> {
        &&& (r.initial_value == 0 ==> r.roi == Err::<i128, PortfolioError>(
            PortfolioError::DivisionByZero,
        ))
        &&& (r.initial_value != 0 ==> (r.roi matches Ok(x) && x == roi_spec(
            r.initial_value as int,
            v as int,
        )))
    })
    &&& (r.current_value matches Err(e) ==> r.roi == Err::<i128, PortfolioError>(e))
}

impl Holding {
    /// Analyses this holding at `date`: its exact initial value, its
    /// value at `date`, the return on investment between the two, and
    /// the dividend income accrued since acquisition.
    pub fn report<P: MarketDataProvider>(&self, provider: &P, date: i64) -> (r: HoldingReport)
        ensures
            report_for(provider, *self, date as int, r),
    {
        let initial_value = self.initial_value();
        let current_value = self.value_with_date(provider, date);
        let roi_result = match &current_value {
            Ok(v) => roi(initial_value, *v),
            Err(e) => Err(*e),
        };
        HoldingReport {
            ticker: self.stock.ticker.clone(),
            initial_value,
            current_value,
            roi: roi_result,
            dividend_income: self.dividend_generated(provider, date),
        }
    }
}

/// Analyses every holding at `date`, independently and in input order:
/// the partial-success policy again, one report per holding.
pub fn portfolio_report<P: MarketDataProvider>(
    holdings: &Vec<Holding>,
    provider: &P,
    date: i64,
) -> (reports: Vec<HoldingReport>)
    ensures
        reports@.len() == holdings@.len(),
        forall|i: int|
            0 <= i < holdings@.len() ==> report_for(
                provider,
                holdings@[i],
                date as int,
                #[trigger] reports@[i],
            ),
{
    let mut reports: Vec<HoldingReport> = Vec::new();
    let mut i: usize = 0;
    while i < holdings.len()
        invariant
            i <= holdings.len(),
            reports@.len() == i,
            forall|j: int|
                0 <= j < i ==> report_for(provider, holdings@[j], date as int, #[trigger] reports@[j]),
        decreases holdings.len() - i,
    {
        reports.push(holdings[i].report(provider, date));
        i = i + 1;
    }
    reports
}

/// The sum, in cents, of the successful per-holding values; a failed
/// holding contributes nothing.
pub open spec fn sum_ok64(results: Seq<Result<u64, PortfolioError>>) -> int
    decreases results.len(),
{
    if results.len() == 0 {
        0
    } else {
        sum_ok64(results.drop_last()) + (if results.last() is Ok {
            results.last()->Ok_0 as int
        } else {
            0
        })
    }
}

/// The sum, in cents, of the successful per-holding dividend incomes.
pub open spec fn sum_ok128(results: Seq<Result<u128, PortfolioError>>) -> int
    decreases results.len(),
{
    if results.len() == 0 {
        0
    } else {
        sum_ok128(results.drop_last()) + (if results.last() is Ok {
            results.last()->Ok_0 as int
        } else {
            0
        })
    }
}

/// A portfolio valued at one instant: one outcome per holding, in
/// input order, and the exact sum of the successful outcomes.
pub struct PortfolioValue {
    pub per_holding: Vec<Result<u64, PortfolioError>>,
    pub total: u128,
}

/// Values every holding at `date` independently — partial success, one
/// outcome per holding, input order kept — and sums the successes.
pub fn portfolio_value_at<P: MarketDataProvider>(
    holdings: &Vec<Holding>,
    provider: &P,
    date: i64,
) -> (r: PortfolioValue)
    ensures
        r.per_holding@.len() == holdings@.len(),
        forall|i: int|
            0 <= i < holdings@.len() ==> value_outcome(
                provider,
                holdings@[i],
                date as int,
                #[trigger] r.per_holding@[i],
            ),
        r.total == sum_ok64(r.per_holding@),
{
    let mut per_holding: Vec<Result<u64, PortfolioError>> = Vec::new();
    let mut i: usize = 0;
    while i < holdings.len()
        invariant
            i <= holdings.len(),
            per_holding@.len() == i,
            forall|j: int|
                0 <= j < i ==> value_outcome(
                    provider,
                    holdings@[j],
                    date as int,
                    #[trigger] per_holding@[j],
                ),
        decreases holdings.len() - i,
    {
        per_holding.push(holdings[i].value_with_date(provider, date));
        i = i + 1;
    }
    let mut total: u128 = 0;
    let mut k: usize = 0;
    while k < per_holding.len()
        invariant
            k <= per_holding.len(),
            total == sum_ok64(per_holding@.take(k as int)),
            total <= (k as int) * (u64::MAX as int),
        decreases per_holding.len() - k,
    {
        proof {
            assert(per_holding@.take(k as int + 1).drop_last() =~= per_holding@.take(k as int));
            assert(per_holding@.take(k as int + 1).last() == per_holding@[k as int]);
            vstd::arithmetic::mul::lemma_mul_inequality(
                k as int + 1,
                u64::MAX as int,
                u64::MAX as int,
            );
        }
        match &per_holding[k] {
            Ok(v) => total = total + (*v as u128),
            Err(_) => (),
        }
        k = k + 1;
    }
    proof {
        assert(per_holding@.take(per_holding@.len() as int) =~= per_holding@);
    }
    PortfolioValue { per_holding, total }
}

/// The dividend income of a portfolio up to one instant: one outcome
/// per holding, in input order, and the exact sum of the successful
/// incomes — `None` only if that exact sum exceeds the widest machine
/// integer.
pub struct DividendTotals {
    pub per_holding: Vec<Result<u128, PortfolioError>>,
    pub total: Option<u128>,
}

/// Computes every holding's dividend income over its own window
/// `[acquisition date, end_date)` independently — partial success, one
/// outcome per holding, input order kept — and sums the successes.
pub fn total_dividends<P: MarketDataProvider>(
    holdings: &Vec<Holding>,
    provider: &P,
    end_date: i64,
) -> (r: DividendTotals)
    ensures
        r.per_holding@.len() == holdings@.len(),
        forall|i: int|
            0 <= i < holdings@.len() ==> dividend_outcome(
                provider,
                holdings@[i],
                end_date as int,
                #[trigger] r.per_holding@[i],
            ),
        sum_ok128(r.per_holding@) <= u128::MAX ==> r.total == Some(
            sum_ok128(r.per_holding@) as u128,
        ),
        sum_ok128(r.per_holding@) > u128::MAX ==> r.total is None,
{
    let mut per_holding: Vec<Result<u128, PortfolioError>> = Vec::new();
    let mut i: usize = 0;
    while i < holdings.len()
        invariant
            i <= holdings.len(),
            per_holding@.len() == i,
            forall|j: int|
                0 <= j < i ==> dividend_outcome(
                    provider,
                    holdings@[j],
                    end_date as int,
                    #[trigger] per_holding@[j],
                ),
        decreases holdings.len() - i,
    {
        per_holding.push(holdings[i].dividend_generated(provider, end_date));
        i = i + 1;
    }
    let mut acc: u128 = 0;
    let mut overflowed: bool = false;
    let mut k: usize = 0;
    while k < per_holding.len()
        invariant
            k <= per_holding.len(),
            !overflowed ==> acc == sum_ok128(per_holding@.take(k as int)),
            overflowed ==> sum_ok128(per_holding@.take(k as int)) > u128::MAX,
        decreases per_holding.len() - k,
    {
        proof {
            assert(per_holding@.take(k as int + 1).drop_last() =~= per_holding@.take(k as int));
            assert(per_holding@.take(k as int + 1).last() == per_holding@[k as int]);
        }
        match &per_holding[k] {
            Ok(v) => {
                if !overflowed {
                    if *v <= u128::MAX - acc {
                        acc = acc + *v;
                    } else {
                        overflowed = true;
                    }
                }
            },
            Err(_) => (),
        }
        k = k + 1;
    }
    proof {
        assert(per_holding@.take(per_holding@.len() as int) =~= per_holding@);
    }
    DividendTotals { per_holding, total: if overflowed {
        None
    } else {
        Some(acc)
    } }
}

} // verus!
