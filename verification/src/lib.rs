//! Verified core of a stock-watchlist chat bot: request authentication,
//! command dispatch, and price analytics over market-data series.
//!
//! Monetary amounts are integers counted in hundredths of a currency unit;
//! instants are whole seconds since the Unix epoch.

pub mod config;
pub mod database;
pub mod gateway;
pub mod interactions;
pub mod models;
pub mod signature;
pub mod stocks;
pub mod text;
