//! Verified core of an automated trading system: decimal arithmetic,
//! technical indicators, risk checks, position sizing and backtest accounting.
pub mod decimal;
pub mod indicators;
pub mod types;
pub mod backtest;
pub mod config;
pub mod risk;
pub mod portfolio;
pub mod features;
pub mod regime;
pub mod models;
pub mod text;
pub mod ollama;
pub mod neural;
pub mod pool_routing;
pub mod keyed;
pub mod strategy;
pub mod trend;
pub mod mean_reversion;
pub mod risk_signal;
pub mod breakout;
pub mod momentum;
pub mod meta;
pub mod funding_rate;
pub mod imbalance;
pub mod cross_timeframe;
pub mod regime_transition;
pub mod anti_consensus;
pub mod backtest_run;
pub mod live;
pub mod errors;
pub mod binance;
pub mod binance_rest;
pub mod market_data;
pub mod execution;
pub mod paper;
