//! The error taxonomy shared by resolution, valuation and aggregation.

use vstd::prelude::*;

verus! {

/// Every way a data-source call or a derived computation can fail.
///
/// - `InvalidTicker`: the data source reports the symbol does not exist.
/// - `NoPriceData`: no trading-session data near the requested date.
/// - `ProviderUnavailable`: transient transport or backend failure.
/// - `MalformedResponse`: the backend returned data outside the contract.
/// - `DivisionByZero`: return on investment is undefined for a zero
///   initial value.
#[derive(Clone, Copy, Debug, PartialEq, Eq, Structural)]
pub enum PortfolioError {
    InvalidTicker,
    NoPriceData,
    ProviderUnavailable,
    MalformedResponse,
    DivisionByZero,
}

impl PortfolioError {
    /// A short human-readable name of the error kind.
    pub fn describe(&self) -> (r: &'static str)
        ensures
            self is InvalidTicker ==> r@ == "invalid ticker"@,
            self is NoPriceData ==> r@ == "no price data"@,
            self is ProviderUnavailable ==> r@ == "provider unavailable"@,
            self is MalformedResponse ==> r@ == "malformed response"@,
            self is DivisionByZero ==> r@ == "division by zero"@,
    {
        proof {
            reveal_strlit("invalid ticker");
            reveal_strlit("no price data");
            reveal_strlit("provider unavailable");
            reveal_strlit("malformed response");
            reveal_strlit("division by zero");
        }
        match self {
            PortfolioError::InvalidTicker => "invalid ticker",
            PortfolioError::NoPriceData => "no price data",
            PortfolioError::ProviderUnavailable => "provider unavailable",
            PortfolioError::MalformedResponse => "malformed response",
            PortfolioError::DivisionByZero => "division by zero",
        }
    }
}

} // verus!
