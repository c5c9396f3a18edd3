//! End-to-end behaviour of resolution, valuation and aggregation
//! against the deterministic in-memory backend.
//!
//! Amounts are cents; instants are Unix seconds (UTC); calendar days
//! are epoch day numbers. The fixture days: 2024-01-01 is day 19723,
//! 2024-03-01 is day 19783, 2024-06-01 is day 19875.

use wallet_opt::errors::PortfolioError;
use wallet_opt::fixed_provider::{DividendEvent, FixedProvider, PricePoint};
use wallet_opt::holding::{market_close, Holding, RawHolding};
use wallet_opt::loader::{load_failures, load_holdings, successful_holdings};
use wallet_opt::market_data_provider::closing_price;
use wallet_opt::stock::{Stock, StockOrigin};
use wallet_opt::valuation::{portfolio_report, portfolio_value_at, roi, total_dividends};

const ACME_BUY_CLOSE: i64 = 19723 * 86400 + 57600; // 2024-01-01 16:00 UTC
const ACME_DIV_EX: i64 = 19783 * 86400; // 2024-03-01 00:00 UTC
const ACME_QUERY: i64 = 19875 * 86400 + 57600; // 2024-06-01 16:00 UTC

fn acme_provider() -> FixedProvider {
    FixedProvider {
        known: vec!["ACME".to_string()],
        prices: vec![PricePoint { ticker: "ACME".to_string(), date: ACME_QUERY, price: 7500 }],
        dividends: vec![DividendEvent {
            ticker: "ACME".to_string(),
            ex_date: ACME_DIV_EX,
            amount: 100,
        }],
        unreachable: vec![],
        available: true,
    }
}

fn acme_raw() -> RawHolding {
    RawHolding { symbol: "ACME".to_string(), quantity: 10, price_paid: 5000, date: 19723 }
}

#[test]
fn market_close_is_16_utc() {
    assert_eq!(market_close(19723), 1704124800);
    assert_eq!(market_close(0), 57600);
    assert_eq!(market_close(-1), -86400 + 57600);
}

#[test]
fn end_to_end_acme() {
    let provider = acme_provider();
    let holding = Holding::from_raw(&acme_raw(), &provider).expect("ACME resolves");
    assert_eq!(holding.initial_value(), 50000); // 500.00
    assert_eq!(holding.value_with_date(&provider, ACME_QUERY), Ok(75000)); // 750.00
    assert_eq!(roi(50000, 75000), Ok(5000)); // 50.00 %
    assert_eq!(holding.dividend_generated(&provider, ACME_QUERY), Ok(1000)); // 10.00
}

#[test]
fn resolution_carries_the_record() {
    let provider = acme_provider();
    let holding = Holding::from_raw(&acme_raw(), &provider).expect("ACME resolves");
    let stock = holding.stock();
    assert_eq!(stock.ticker(), "ACME");
    assert_eq!(stock.price(), 5000);
    assert_eq!(stock.date(), ACME_BUY_CLOSE);
    assert_eq!(stock.origin(), StockOrigin::UserDefined);
    assert_eq!(holding.quantity, 10);
}

#[test]
fn initial_value_is_quantity_times_price() {
    let stock = Stock {
        ticker: "ACME".to_string(),
        price: 123,
        date: 0,
        origin: StockOrigin::UserDefined,
    };
    let holding = Holding::new(stock, 7);
    assert_eq!(holding.initial_value(), 7 * 123);
}

#[test]
fn initial_value_is_linear_in_quantity() {
    let stock = Stock {
        ticker: "ACME".to_string(),
        price: 999,
        date: 0,
        origin: StockOrigin::UserDefined,
    };
    let h1 = Holding::new(stock.clone(), 3);
    let h2 = Holding::new(stock.clone(), 39);
    let h12 = Holding::new(stock, 3 + 39);
    assert_eq!(h12.initial_value(), h1.initial_value() + h2.initial_value());
}

#[test]
fn roi_of_unchanged_value_is_zero() {
    assert_eq!(roi(500, 500), Ok(0));
    assert_eq!(roi(1, 1), Ok(0));
    assert_eq!(roi(u64::MAX, u64::MAX), Ok(0));
}

#[test]
fn roi_reports_division_by_zero() {
    assert_eq!(roi(0, 0), Err(PortfolioError::DivisionByZero));
    assert_eq!(roi(0, 75000), Err(PortfolioError::DivisionByZero));
}

#[test]
fn roi_truncates_toward_zero() {
    assert_eq!(roi(30000, 40000), Ok(3333)); // +33.33…% -> 33.33
    assert_eq!(roi(30000, 20000), Ok(-3333)); // -33.33…% -> -33.33
}

#[test]
fn dividend_before_ownership_is_excluded() {
    let mut provider = acme_provider();
    // A dividend with ex-date 2023-12-01, strictly before the purchase.
    provider.dividends.insert(
        0,
        DividendEvent { ticker: "ACME".to_string(), ex_date: 19692 * 86400, amount: 5000 },
    );
    let holding = Holding::from_raw(&acme_raw(), &provider).expect("ACME resolves");
    // Only the in-window dividend of 1.00 per share counts.
    assert_eq!(holding.dividend_generated(&provider, ACME_QUERY), Ok(1000));
}

#[test]
fn dividend_on_or_after_end_is_excluded() {
    let provider = acme_provider();
    let holding = Holding::from_raw(&acme_raw(), &provider).expect("ACME resolves");
    // The window is half-open: an end right at the ex-date excludes it.
    assert_eq!(holding.dividend_generated(&provider, ACME_DIV_EX), Ok(0));
    assert_eq!(holding.dividend_generated(&provider, ACME_DIV_EX + 1), Ok(1000));
}

#[test]
fn unknown_symbol_is_invalid_ticker_and_spares_the_batch() {
    let provider = acme_provider();
    let raws = vec![
        acme_raw(),
        RawHolding { symbol: "NOPE".to_string(), quantity: 1, price_paid: 1, date: 19723 },
        RawHolding { symbol: "ACME".to_string(), quantity: 2, price_paid: 100, date: 19723 },
    ];
    let results = load_holdings(&raws, &provider);
    assert_eq!(results.len(), 3);
    assert!(results[0].is_ok());
    assert!(matches!(results[1], Err(PortfolioError::InvalidTicker)));
    assert!(results[2].is_ok());

    let holdings = successful_holdings(&results);
    assert_eq!(holdings.len(), 2);
    assert_eq!(holdings[0].quantity, 10);
    assert_eq!(holdings[1].quantity, 2);

    let failures = load_failures(&raws, &results);
    assert_eq!(failures.len(), 1);
    assert_eq!(failures[0].index, 1);
    assert_eq!(failures[0].symbol, "NOPE");
    assert_eq!(failures[0].error, PortfolioError::InvalidTicker);
}

#[test]
fn empty_symbol_is_invalid_ticker() {
    let provider = acme_provider();
    let raw = RawHolding { symbol: String::new(), quantity: 1, price_paid: 1, date: 19723 };
    assert!(matches!(
        Holding::from_raw(&raw, &provider),
        Err(PortfolioError::InvalidTicker)
    ));
}

#[test]
fn unavailable_provider_is_transient_failure() {
    let mut provider = acme_provider();
    provider.available = false;
    assert!(matches!(
        Holding::from_raw(&acme_raw(), &provider),
        Err(PortfolioError::ProviderUnavailable)
    ));
}

#[test]
fn unreachable_ticker_fails_transiently_and_spares_siblings() {
    let mut provider = acme_provider();
    provider.known.push("BETA".to_string());
    provider.unreachable.push("BETA".to_string());
    let raws = vec![
        acme_raw(),
        RawHolding { symbol: "BETA".to_string(), quantity: 1, price_paid: 1, date: 19723 },
    ];
    let results = load_holdings(&raws, &provider);
    assert!(results[0].is_ok());
    assert!(matches!(results[1], Err(PortfolioError::ProviderUnavailable)));
}

#[test]
fn from_market_never_blames_a_nonempty_ticker() {
    let provider = acme_provider();
    // An unknown symbol with no session data: the source's own error
    // surfaces; `InvalidTicker` is reserved for an empty symbol.
    assert!(matches!(
        Stock::from_market(&provider, &"NOPE".to_string(), ACME_QUERY),
        Err(PortfolioError::NoPriceData)
    ));
    assert!(matches!(
        Stock::from_market(&provider, &String::new(), ACME_QUERY),
        Err(PortfolioError::InvalidTicker)
    ));
}

#[test]
fn missing_session_is_no_price_data() {
    let provider = acme_provider();
    let holding = Holding::from_raw(&acme_raw(), &provider).expect("ACME resolves");
    // One day past the only stored session.
    assert_eq!(
        holding.value_with_date(&provider, ACME_QUERY + 86400),
        Err(PortfolioError::NoPriceData)
    );
}

#[test]
fn out_of_order_dividend_table_is_malformed() {
    let mut provider = acme_provider();
    provider.dividends.push(DividendEvent {
        ticker: "ACME".to_string(),
        ex_date: ACME_DIV_EX - 86400,
        amount: 7,
    });
    let holding = Holding::from_raw(&acme_raw(), &provider).expect("ACME resolves");
    assert_eq!(
        holding.dividend_generated(&provider, ACME_QUERY),
        Err(PortfolioError::MalformedResponse)
    );
}

#[test]
fn stock_from_market_takes_the_observed_price() {
    let provider = acme_provider();
    let stock = Stock::from_market(&provider, &"ACME".to_string(), ACME_QUERY)
        .expect("session data exists");
    assert_eq!(stock.price(), 7500);
    assert_eq!(stock.origin(), StockOrigin::MarketProvider);
    assert!(matches!(
        Stock::from_market(&provider, &"ACME".to_string(), ACME_QUERY + 1),
        Err(PortfolioError::NoPriceData)
    ));
}

#[test]
fn portfolio_value_sums_the_successes() {
    let provider = acme_provider();
    let raws = vec![
        acme_raw(),
        RawHolding { symbol: "ACME".to_string(), quantity: 2, price_paid: 100, date: 19723 },
    ];
    let holdings = successful_holdings(&load_holdings(&raws, &provider));
    assert_eq!(holdings.len(), 2);
    let value = portfolio_value_at(&holdings, &provider, ACME_QUERY);
    assert_eq!(value.per_holding, vec![Ok(75000), Ok(15000)]);
    assert_eq!(value.total, 90000);
    // At an instant with no session data, every holding fails but the
    // aggregate still reports each outcome.
    let value = portfolio_value_at(&holdings, &provider, ACME_QUERY + 1);
    assert_eq!(
        value.per_holding,
        vec![Err(PortfolioError::NoPriceData), Err(PortfolioError::NoPriceData)]
    );
    assert_eq!(value.total, 0);
}

#[test]
fn total_dividends_sums_each_window() {
    let provider = acme_provider();
    let raws = vec![
        acme_raw(),
        // Bought 2024-03-02, after the ex-date: accrues nothing.
        RawHolding { symbol: "ACME".to_string(), quantity: 2, price_paid: 100, date: 19784 },
    ];
    let holdings = successful_holdings(&load_holdings(&raws, &provider));
    let totals = total_dividends(&holdings, &provider, ACME_QUERY);
    assert_eq!(totals.per_holding, vec![Ok(1000), Ok(0)]);
    assert_eq!(totals.total, Some(1000));
}

#[test]
fn report_carries_every_metric() {
    let provider = acme_provider();
    let holding = Holding::from_raw(&acme_raw(), &provider).expect("ACME resolves");
    let reports = portfolio_report(&vec![holding], &provider, ACME_QUERY);
    assert_eq!(reports.len(), 1);
    assert_eq!(reports[0].ticker, "ACME");
    assert_eq!(reports[0].initial_value, 50000);
    assert_eq!(reports[0].current_value, Ok(75000));
    assert_eq!(reports[0].roi, Ok(5000));
    assert_eq!(reports[0].dividend_income, Ok(1000));
    // Without session data at the date, the report still carries the
    // initial value and attributes the failure.
    let reports = portfolio_report(&vec![
        Holding::from_raw(&acme_raw(), &provider).expect("ACME resolves"),
    ], &provider, ACME_QUERY + 1);
    assert_eq!(reports[0].initial_value, 50000);
    assert_eq!(reports[0].current_value, Err(PortfolioError::NoPriceData));
    assert_eq!(reports[0].roi, Err(PortfolioError::NoPriceData));
    assert_eq!(reports[0].dividend_income, Ok(1000));
}

#[test]
fn session_close_is_the_last_quote() {
    assert_eq!(closing_price(&vec![7000, 7200, 7500]), Ok(7500));
    assert_eq!(closing_price(&vec![7500]), Ok(7500));
    assert_eq!(closing_price(&vec![]), Err(PortfolioError::NoPriceData));
}

#[test]
fn error_kinds_name_themselves() {
    assert_eq!(PortfolioError::InvalidTicker.describe(), "invalid ticker");
    assert_eq!(PortfolioError::NoPriceData.describe(), "no price data");
    assert_eq!(PortfolioError::ProviderUnavailable.describe(), "provider unavailable");
    assert_eq!(PortfolioError::MalformedResponse.describe(), "malformed response");
    assert_eq!(PortfolioError::DivisionByZero.describe(), "division by zero");
}
