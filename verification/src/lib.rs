//! Market-data task engine and strategy back-testing core.
//!
//! The crate holds the decision logic of the system: exact rounding at an
//! exchange's step size, the search for a market's earliest candle, the
//! lifecycle of asynchronous tasks and their registry, the confinement of
//! strategy workspaces to their root directory, and the replay of candles
//! through a strategy with simulated fills.

pub mod errors;
pub mod decimal;
pub mod paths;
pub mod utils;
pub mod models;
pub mod exchange;
pub mod discovery;
pub mod tasks;
pub mod registry;
pub mod strategy;
pub mod backtest;
pub mod handlers;
