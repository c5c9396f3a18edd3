//! The wallet's price-movement computation over observed quote windows.

use wallet_opt::errors::PortfolioError;
use wallet_opt::wallet::{Stock, Wallet};

#[test]
fn movement_is_last_close_minus_first_close() {
    let stock = Stock { ticker: "ACME".to_string(), time_of_buy: Some(1704124800) };
    assert_eq!(stock.value(&vec![7000, 7200, 7500]), Ok(500));
    assert_eq!(stock.value(&vec![7500, 7000]), Ok(-500));
    assert_eq!(stock.value(&vec![7500]), Ok(0));
}

#[test]
fn missing_window_is_no_price_data() {
    let unbought = Stock { ticker: "ACME".to_string(), time_of_buy: None };
    assert_eq!(unbought.value(&vec![7000, 7500]), Err(PortfolioError::NoPriceData));
    let bought = Stock { ticker: "ACME".to_string(), time_of_buy: Some(1704124800) };
    assert_eq!(bought.value(&vec![]), Err(PortfolioError::NoPriceData));
}

#[test]
fn wallet_holds_positions_and_cash() {
    let wallet = Wallet {
        stocks: vec![Stock { ticker: "ACME".to_string(), time_of_buy: None }],
        cash: 123456,
    };
    assert_eq!(wallet.stocks.len(), 1);
    assert_eq!(wallet.cash, 123456);
}
