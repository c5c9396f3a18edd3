//! An immutable priced reference to a ticker at a point in time.

use vstd::prelude::*;

use crate::errors::PortfolioError;
use crate::market_data_provider::MarketDataProvider;

verus! {

/// Where a stock's price came from: asserted by the user, or observed
/// at the market-data source.
#[derive(Clone, Copy, Debug, PartialEq, Eq, Structural)]
pub enum StockOrigin {
    UserDefined,
    MarketProvider,
}

/// A ticker priced at a point in time, tagged with the provenance of
/// the price. The two constructors below build one from a data source,
/// validated; nothing in the library mutates a stock once it exists —
/// every later valuation is a new computation, never an update.
///
/// `price` is a fixed-point decimal in cents; `date` is a Unix
/// timestamp in seconds, always an explicit UTC instant.
#[derive(Debug)]
pub struct Stock {
    pub ticker: String,
    pub price: u32,
    pub date: i64,
    pub origin: StockOrigin,
}

impl Clone for Stock {
    /// A clone carries exactly the same ticker, price, date and origin.
    fn clone(&self) -> (r: Self)
        ensures
            r == *self,
    {
        Stock {
            ticker: self.ticker.clone(),
            price: self.price,
            date: self.date,
            origin: self.origin,
        }
    }
}

impl Stock {
    /// The structural invariant: a stock always names a ticker.
    /// (The price cannot be negative: it is an unsigned count of cents.)
    pub open spec fn wf(&self) -> bool {
        self.ticker@.len() > 0
    }

    /// Builds a stock around a user-asserted price, after validating the
    /// ticker against the data source.
    ///
    /// - Succeeds exactly when the ticker is non-empty, the source knows
    ///   it, and the validity check itself went through; the price is
    ///   taken as given and the origin is `UserDefined`.
    /// - An empty or unknown symbol yields `InvalidTicker`, never a
    ///   generic error; a transport failure yields `ProviderUnavailable`.
    /// - While the source answers for the ticker, the result is pinned
    ///   completely: the stock for a known symbol, `InvalidTicker` for
    ///   an unknown one.
    pub fn new<P: MarketDataProvider>(
        provider: &P,
        ticker: &String,
        price: u32,
        date: i64,
    ) -> (r: Result<Stock, PortfolioError>)
        ensures
            (r matches Ok(s) ==> {
                &&& s.ticker@ == ticker@
                &&& s.price == price
                &&& s.date == date
                &&& s.origin == StockOrigin::UserDefined
                &&& s.wf()
                &&& provider.ticker_known(ticker@)
            }),
            ticker@.len() == 0 ==> r == Err::<Stock, PortfolioError>(PortfolioError::InvalidTicker),
            ticker@.len() > 0 && r == Err::<Stock, PortfolioError>(PortfolioError::InvalidTicker)
                ==> !provider.ticker_known(ticker@),
            !provider.ticker_known(ticker@) ==> !(r is Ok),
            (r matches Err(e) ==> (e == PortfolioError::InvalidTicker || e
                == PortfolioError::ProviderUnavailable)),
            provider.answers(ticker@) && ticker@.len() > 0 ==> (if provider.ticker_known(
                ticker@,
            ) {
                r is Ok
            } else {
                r == Err::<Stock, PortfolioError>(PortfolioError::InvalidTicker)
            }),
    {
        if ticker.as_str().unicode_len() == 0 {
            return Err(PortfolioError::InvalidTicker);
        }
        match provider.is_ticker_valid(ticker) {
            Ok(true) => Ok(Stock {
                ticker: ticker.clone(),
                price,
                date,
                origin: StockOrigin::UserDefined,
            }),
            Ok(false) => Err(PortfolioError::InvalidTicker),
            Err(e) => Err(e),
        }
    }

    /// Builds a stock around a price observed at the data source for the
    /// trading session covering `date`; the origin is `MarketProvider`.
    ///
    /// `InvalidTicker` comes if and only if the symbol is empty; any
    /// other error is the source's own, surfaced unchanged: a success
    /// carries exactly the price the source models for that ticker and
    /// instant, `NoPriceData` comes exactly when the source has none,
    /// and transient failures pass through — though never while the
    /// source answers for the ticker.
    pub fn from_market<P: MarketDataProvider>(provider: &P, ticker: &String, date: i64) -> (r:
        Result<Stock, PortfolioError>)
        ensures
            (r matches Ok(s) ==> {
                &&& s.ticker@ == ticker@
                &&& provider.price_at(ticker@, date as int) == Some(s.price)
                &&& s.date == date
                &&& s.origin == StockOrigin::MarketProvider
                &&& s.wf()
            }),
            ticker@.len() == 0 <==> r == Err::<Stock, PortfolioError>(
                PortfolioError::InvalidTicker,
            ),
            (r matches Err(e) ==> {
                &&& ticker@.len() > 0 && e == PortfolioError::NoPriceData ==> provider.price_at(
                    ticker@,
                    date as int,
                ) is None
                &&& (e == PortfolioError::InvalidTicker || e == PortfolioError::NoPriceData || e
                    == PortfolioError::ProviderUnavailable || e
                    == PortfolioError::MalformedResponse)
            }),
            provider.answers(ticker@) && ticker@.len() > 0 ==> (match provider.price_at(
                ticker@,
                date as int,
            ) {
                Some(_) => r is Ok,
                None => r == Err::<Stock, PortfolioError>(PortfolioError::NoPriceData),
            }),
    {
        if ticker.as_str().unicode_len() == 0 {
            return Err(PortfolioError::InvalidTicker);
        }
        match provider.get_price_at_date(ticker, date) {
            Ok(price) => Ok(Stock {
                ticker: ticker.clone(),
                price,
                date,
                origin: StockOrigin::MarketProvider,
            }),
            Err(e) => Err(e),
        }
    }

    /// The ticker symbol.
    pub fn ticker(&self) -> (r: &String)
        ensures
            r == self.ticker,
    {
        &self.ticker
    }

    /// The price in cents.
    pub fn price(&self) -> (r: u32)
        ensures
            r == self.price,
    {
        self.price
    }

    /// The instant the price refers to, in Unix seconds.
    pub fn date(&self) -> (r: i64)
        ensures
            r == self.date,
    {
        self.date
    }

    /// The provenance of the price.
    pub fn origin(&self) -> (r: StockOrigin)
        ensures
            r == self.origin,
    {
        self.origin
    }
}

} // verus!
