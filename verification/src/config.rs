//! Configuration values.
//!
//! Loading is left to the embedding program. The three strategy parameters
//! are fractions counted in millionths, as every amount in this crate is.

use vstd::prelude::*;

verus! {

/// Endpoints and credentials of the venue where orders are placed.
#[derive(Debug, Clone)]
pub struct PolymarketConfig {
    pub rest_url: String,
    pub ws_url: String,
    pub api_key: String,
    pub api_secret: String,
    pub api_passphrase: String,
    pub btc_contract_id: String,
}

/// Endpoints and credentials of the reference price sources.
#[derive(Debug, Clone)]
pub struct OracleConfig {
    pub tradingview_ws_url: String,
    pub cryptoquant_api_url: String,
    pub tradingview_session: String,
    pub cryptoquant_api_key: String,
    pub cryptoquant_api_secret: String,
}

/// The strategy parameters, each a fraction in millionths.
#[derive(Debug, Clone, Copy)]
pub struct StrategyConfig {
    /// Relative divergence above which a signal is raised.
    pub lag_threshold: u64,
    /// Share of the capital committed to one trade.
    pub max_trade_percent: u64,
    /// Share of the capital whose loss within a day halts trading.
    pub daily_loss_cap: u64,
}

/// The whole configuration.
#[derive(Debug, Clone)]
pub struct Config {
    pub polymarket: PolymarketConfig,
    pub oracles: OracleConfig,
    pub strategy: StrategyConfig,
}

} // verus!
