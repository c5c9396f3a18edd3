//! A simple wallet: watched positions and a cash balance, with the
//! price movement of a position over its observation window.

use vstd::prelude::*;

use crate::errors::PortfolioError;

verus! {

/// A watched position: a ticker and, if the position is active, the
/// instant it was bought (Unix seconds).
#[derive(Debug)]
pub struct Stock {
    pub ticker: String,
    pub time_of_buy: Option<i64>,
}

/// Watched positions and a cash balance in cents.
#[derive(Debug)]
pub struct Wallet {
    pub stocks: Vec<Stock>,
    pub cash: u64,
}

impl Stock {
    /// The price movement, in cents, of the position over an observed
    /// window of closing prices, first to last: positive for a gain,
    /// negative for a loss. The caller fetches the window's closing
    /// quotes, in cents and chronological order, from its data source.
    ///
    /// A position without a time of buy has no window, and an empty
    /// window has no closing prices: both are `NoPriceData`.
    pub fn value(&self, quotes: &Vec<u32>) -> (r: Result<i64, PortfolioError>)
        ensures
            self.time_of_buy is None ==> r == Err::<i64, PortfolioError>(
                PortfolioError::NoPriceData,
            ),
            self.time_of_buy is Some && quotes@.len() == 0 ==> r == Err::<i64, PortfolioError>(
                PortfolioError::NoPriceData,
            ),
            self.time_of_buy is Some && quotes@.len() > 0 ==> r == Ok::<i64, PortfolioError>(
                (quotes@.last() - quotes@.first()) as i64,
            ),
    {
        match self.time_of_buy {
            None => Err(PortfolioError::NoPriceData),
            Some(_) => {
                if quotes.len() == 0 {
                    Err(PortfolioError::NoPriceData)
                } else {
                    let first: u32 = quotes[0];
                    let last: u32 = quotes[quotes.len() - 1];
                    Ok(last as i64 - first as i64)
                }
            },
        }
    }
}

} // verus!
