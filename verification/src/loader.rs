//! Resolving a batch of raw purchase records against a data source.
//!
//! The policy is partial-success: every record is resolved
//! independently, successes are collected and failures are reported
//! alongside them, keyed by the offending record; one bad ticker never
//! prevents resolution of the other records of the batch. The output
//! order always matches the input order.

use vstd::prelude::*;

use crate::errors::PortfolioError;
use crate::holding::{resolves_to, Holding, RawHolding};
use crate::market_data_provider::MarketDataProvider;

verus! {

/// One failed resolution, attributable to its originating record: the
/// record's position in the batch, its symbol, and the error kind.
#[derive(Debug)]
pub struct LoadFailure {
    pub index: usize,
    pub symbol: String,
    pub error: PortfolioError,
}

/// The holdings of the successfully resolved records, in input order.
pub open spec fn oks_of(results: Seq<Result<Holding, PortfolioError>>) -> Seq<Holding>
    decreases results.len(),
{
    if results.len() == 0 {
        Seq::empty()
    } else {
        let rest = oks_of(results.drop_last());
        if results.last() is Ok {
            rest.push(results.last()->Ok_0)
        } else {
            rest
        }
    }
}

/// The failures among the results, in input order, each keyed by the
/// position and symbol of its originating record. Meaningful when
/// `raws` and `results` run in parallel, index by index.
pub open spec fn failures_of(
    raws: Seq<RawHolding>,
    results: Seq<Result<Holding, PortfolioError>>,
) -> Seq<LoadFailure>
    decreases results.len(),
{
    if results.len() == 0 || raws.len() != results.len() {
        Seq::empty()
    } else {
        let rest = failures_of(raws.drop_last(), results.drop_last());
        if results.last() is Err {
            rest.push(
                LoadFailure {
                    index: (results.len() - 1) as usize,
                    symbol: raws.last().symbol,
                    error: results.last()->Err_0,
                },
            )
        } else {
            rest
        }
    }
}

/// Resolves every record of the batch against the data source,
/// independently and in input order, and returns one result per
/// record: the resolved holding, or the error attributable to that
/// record. Each entry satisfies exactly [`resolves_to`] for its own
/// record, whatever happened to the records around it.
pub fn load_holdings<P: MarketDataProvider>(raws: &Vec<RawHolding>, provider: &P) -> (results:
    Vec<Result<Holding, PortfolioError>>)
    ensures
        results@.len() == raws@.len(),
        forall|i: int|
            0 <= i < raws@.len() ==> resolves_to(provider, raws@[i], #[trigger] results@[i]),
{
    let mut results: Vec<Result<Holding, PortfolioError>> = Vec::new();
    let mut i: usize = 0;
    while i < raws.len()
        invariant
            i <= raws.len(),
            results@.len() == i,
            forall|j: int|
                0 <= j < i ==> resolves_to(provider, raws@[j], #[trigger] results@[j]),
        decreases raws.len() - i,
    {
        results.push(Holding::from_raw(&raws[i], provider));
        i = i + 1;
    }
    results
}

/// The successfully resolved holdings of a batch, in input order.
pub fn successful_holdings(results: &Vec<Result<Holding, PortfolioError>>) -> (r: Vec<Holding>)
    ensures
        r@ == oks_of(results@),
{
    let mut out: Vec<Holding> = Vec::new();
    let mut i: usize = 0;
    while i < results.len()
        invariant
            i <= results.len(),
            out@ == oks_of(results@.take(i as int)),
        decreases results.len() - i,
    {
        proof {
            assert(results@.take(i as int + 1).drop_last() =~= results@.take(i as int));
            assert(results@.take(i as int + 1).last() == results@[i as int]);
        }
        match &results[i] {
            Ok(h) => out.push(h.clone()),
            Err(_) => (),
        }
        i = i + 1;
    }
    proof {
        assert(results@.take(results@.len() as int) =~= results@);
    }
    out
}

/// The failures of a batch, in input order, each naming the offending
/// record's position, its symbol and the error kind — never a generic,
/// unattributable failure.
pub fn load_failures(
    raws: &Vec<RawHolding>,
    results: &Vec<Result<Holding, PortfolioError>>,
) -> (r: Vec<LoadFailure>)
    requires
        raws@.len() == results@.len(),
    ensures
        r@ == failures_of(raws@, results@),
{
    let mut out: Vec<LoadFailure> = Vec::new();
    let mut i: usize = 0;
    while i < results.len()
        invariant
            i <= results.len(),
            raws@.len() == results@.len(),
            out@ == failures_of(raws@.take(i as int), results@.take(i as int)),
        decreases results.len() - i,
    {
        proof {
            assert(raws@.take(i as int + 1).drop_last() =~= raws@.take(i as int));
            assert(results@.take(i as int + 1).drop_last() =~= results@.take(i as int));
            assert(results@.take(i as int + 1).last() == results@[i as int]);
            assert(raws@.take(i as int + 1).last() == raws@[i as int]);
        }
        match &results[i] {
            Ok(_) => (),
            Err(e) => out.push(
                LoadFailure { index: i, symbol: raws[i].symbol.clone(), error: *e },
            ),
        }
        i = i + 1;
    }
    proof {
        assert(raws@.take(raws@.len() as int) =~= raws@);
        assert(results@.take(results@.len() as int) =~= results@);
    }
    out
}

} // verus!
