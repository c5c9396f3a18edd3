//! Portfolio valuation: stocks, holdings, and derived financial metrics.
//!
//! The core of the library is a capability interface for market-data
//! backends ([`market_data_provider::MarketDataProvider`]), the entity
//! model ([`stock::Stock`], [`holding::Holding`]), a loader that resolves
//! raw purchase records against a data source, and a valuation engine
//! (point-in-time value, dividend accrual, return on investment).
//!
//! All monetary amounts are fixed-point decimals held in integer cents;
//! instants are Unix timestamps in seconds, always UTC; calendar days are
//! day numbers counted from the Unix epoch.

pub mod cli;
pub mod errors;
pub mod fixed_provider;
pub mod holding;
pub mod loader;
pub mod market_data_provider;
pub mod stock;
pub mod valuation;
pub mod wallet;
