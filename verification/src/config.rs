//! Configuration model and the hardcoded safety limits that no
//! configuration may exceed.
use vstd::prelude::*;
use crate::decimal::{self, Dec};
use crate::types::{MarketType, Timeframe};

verus! {

/// Errors while loading or validating a configuration.
#[derive(Clone, Debug)]
pub enum ConfigError {
    ReadError(String),
    ParseError(String),
    ValidationError(String),
    SafetyLimitExceeded { field: String, value: String, max: String },
}

/// How orders are executed.
#[derive(Clone, Copy, Debug, PartialEq, Eq, Structural)]
pub enum TradingMode {
    Backtest,
    Paper,
    Live,
}

impl TradingMode {
    /// The lower-case name (`backtest`, `paper`, `live`).
    pub fn name(&self) -> (r: &'static str)
        ensures
            r@ == trading_mode_name(*self),
    {
        match self {
            TradingMode::Backtest => "backtest",
            TradingMode::Paper => "paper",
            TradingMode::Live => "live",
        }
    }
}

pub open spec fn trading_mode_name(m: TradingMode) -> Seq<char> {
    match m {
        TradingMode::Backtest => "backtest"@,
        TradingMode::Paper => "paper"@,
        TradingMode::Live => "live"@,
    }
}

/// Exchange connection settings.  Credentials are named by environment
/// variable, never stored.
#[derive(Clone, Debug)]
pub struct ExchangeConfig {
    pub name: String,
    pub use_testnet: bool,
    pub base_url: Option<String>,
    pub api_key_env: String,
    pub api_secret_env: String,
    pub rate_limit_per_minute: u32,
    pub recv_window_ms: u64,
    pub timeout_secs: u64,
    pub ws_reconnect_delay_ms: u64,
    pub ws_max_reconnect_attempts: u32,
}

/// A traded symbol.
#[derive(Clone, Debug)]
pub struct SymbolConfig {
    pub symbol: String,
    pub market_type: MarketType,
    pub timeframes: Vec<Timeframe>,
    pub enabled: bool,
    pub max_position_usd: Option<Dec>,
    pub max_leverage: Option<Dec>,
}

/// A strategy parameter value as read from the configuration.
#[derive(Clone, Debug)]
pub enum ParamValue {
    /// A non-negative integer.
    UInt(u64),
    Text(String),
    Flag(bool),
    /// An array of texts.
    TextList(Vec<String>),
    /// Any other value (negative or fractional numbers, other arrays, ...).
    Other,
}

/// A configured strategy instance.
#[derive(Clone, Debug)]
pub struct StrategyConfig {
    pub name: String,
    pub strategy_type: String,
    pub enabled: bool,
    pub symbols: Vec<String>,
    pub timeframe: Timeframe,
    pub params: Vec<(String, ParamValue)>,
    pub capital_allocation_pct: Dec,
}

/// Risk limits.
#[derive(Clone, Debug)]
pub struct RiskConfig {
    pub max_position_size_usd: Dec,
    pub max_leverage: Dec,
    pub max_daily_loss_pct: Dec,
    pub max_drawdown_pct: Dec,
    pub max_open_positions: usize,
    pub max_notional_exposure_usd: Dec,
    pub max_single_order_usd: Dec,
    pub max_trades_per_day: usize,
    pub max_correlated_exposure_pct: Dec,
    pub stale_data_max_age_secs: u64,
    pub max_spread_bps: Dec,
    pub min_confidence_threshold: Dec,
    pub extreme_volatility_multiplier: Dec,
    pub max_order_rejections_per_hour: u32,
    pub max_orders_per_minute: u32,
}

/// Position sizing settings.
#[derive(Clone, Debug)]
pub struct PortfolioConfig {
    pub initial_capital: Dec,
    pub risk_per_trade_pct: Dec,
    pub target_volatility_pct: Option<Dec>,
    pub kelly_fraction: Dec,
    pub max_portfolio_leverage: Dec,
    pub concentration_limit_pct: Dec,
    pub correlation_lookback_bars: usize,
    pub rebalance_threshold_pct: Dec,
}

impl PortfolioConfig {
    /// A copy of the settings.
    pub fn duplicate(&self) -> (r: PortfolioConfig)
        ensures
            r == *self,
    {
        PortfolioConfig {
            initial_capital: self.initial_capital,
            risk_per_trade_pct: self.risk_per_trade_pct,
            target_volatility_pct: self.target_volatility_pct,
            kelly_fraction: self.kelly_fraction,
            max_portfolio_leverage: self.max_portfolio_leverage,
            concentration_limit_pct: self.concentration_limit_pct,
            correlation_lookback_bars: self.correlation_lookback_bars,
            rebalance_threshold_pct: self.rebalance_threshold_pct,
        }
    }
}

/// Order execution settings.
#[derive(Clone, Debug)]
pub struct ExecutionConfig {
    pub default_order_type: String,
    pub slippage_bps: Dec,
    pub max_retries: u32,
    pub retry_delay_ms: u64,
    pub cancel_timeout_secs: u64,
    pub reconciliation_interval_secs: u64,
    pub smart_order_splitting: bool,
    pub max_split_orders: u32,
    pub min_order_size_usd: Dec,
}

/// Backtest settings.
#[derive(Clone, Debug)]
pub struct BacktestConfig {
    pub start_date: String,
    pub end_date: String,
    pub fee_rate_bps: Dec,
    pub slippage_bps: Dec,
    pub initial_capital: Dec,
    pub enable_partial_fills: bool,
    pub latency_ms: u64,
    pub use_funding_fees: bool,
}

/// Persistence settings.
#[derive(Clone, Debug)]
pub struct StorageConfig {
    pub database_path: String,
    pub data_dir: String,
    pub journal_enabled: bool,
    pub max_candle_cache_size: usize,
}

/// Logging and metrics settings.
#[derive(Clone, Debug)]
pub struct TelemetryConfig {
    pub log_level: String,
    pub log_file: Option<String>,
    pub json_logs: bool,
    pub metrics_enabled: bool,
    pub metrics_port: u16,
    pub tracing_enabled: bool,
}

/// Feature switches.
#[derive(Clone, Debug)]
pub struct FeatureFlagsConfig {
    pub enable_ml_models: bool,
    pub enable_market_making: bool,
    pub enable_statistical_arbitrage: bool,
    pub enable_smart_order_routing: bool,
    pub enable_monte_carlo_stress: bool,
    pub enable_neural_brain: bool,
    pub enable_collective_thinking: bool,
}

/// One Ollama server of the neural brain.
#[derive(Clone, Debug)]
pub struct OllamaServerEntry {
    pub name: String,
    pub base_url: String,
    pub weight: u32,
    pub models: Vec<String>,
    pub enabled: bool,
}

/// The whole configuration (the neural brain section, which holds
/// floating-point settings, is kept by the application layer).
#[derive(Clone, Debug)]
pub struct AppConfig {
    pub mode: TradingMode,
    pub exchange: ExchangeConfig,
    pub symbols: Vec<SymbolConfig>,
    pub strategies: Vec<StrategyConfig>,
    pub risk: RiskConfig,
    pub portfolio: PortfolioConfig,
    pub execution: ExecutionConfig,
    pub backtest: Option<BacktestConfig>,
    pub storage: StorageConfig,
    pub telemetry: TelemetryConfig,
    pub features: FeatureFlagsConfig,
}

/// The default server list: one local Ollama at `http://localhost:11434`.
pub fn default_ollama_servers() -> (r: Vec<OllamaServerEntry>)
    ensures
        r@.len() == 1,
        r@[0].name@ == "local-ollama"@,
        r@[0].base_url@ == "http://localhost:11434"@,
        r@[0].weight == 1,
        r@[0].models@.len() == 0,
        r@[0].enabled,
{
    let mut v: Vec<OllamaServerEntry> = Vec::new();
    v.push(
        OllamaServerEntry {
            name: String::from_str("local-ollama"),
            base_url: String::from_str("http://localhost:11434"),
            weight: 1,
            models: Vec::new(),
            enabled: true,
        },
    );
    v
}

/// The default model name.
pub fn default_model_name() -> (r: String)
    ensures
        r@ == "qwen-trading:latest"@,
{
    String::from_str("qwen-trading:latest")
}

/// The default request timeout in seconds.
pub fn default_timeout() -> (r: u64)
    ensures
        r == 30,
{
    30
}

/// The default memory database path.
pub fn default_memory_path() -> (r: String)
    ensures
        r@ == "./data/neural_memory.db"@,
{
    String::from_str("./data/neural_memory.db")
}

/// The default personality profile.
pub fn default_personality() -> (r: String)
    ensures
        r@ == "balanced"@,
{
    String::from_str("balanced")
}

/// The default analysis interval (every N candles).
pub fn default_analysis_interval() -> (r: u32)
    ensures
        r == 5,
{
    5
}

/// The default server weight.
pub fn default_weight() -> (r: u32)
    ensures
        r == 1,
{
    1
}

/// Servers are enabled by default.
pub fn default_enabled() -> (r: bool)
    ensures
        r,
{
    true
}

/// Hardcoded absolute maxima that configuration cannot override.
pub struct AbsoluteSafetyLimits;

/// 20x leverage.
pub open spec fn max_leverage_limit() -> Dec {
    decimal::dec_lit(20, 0)
}

/// 10% daily loss.
pub open spec fn max_daily_loss_limit() -> Dec {
    decimal::dec_lit(10, 0)
}

/// 25% drawdown.
pub open spec fn max_drawdown_limit() -> Dec {
    decimal::dec_lit(25, 0)
}

/// $1,000,000 per order.
pub open spec fn max_single_order_limit() -> Dec {
    decimal::dec_lit(1000000, 0)
}

/// $10,000,000 total exposure.
pub open spec fn max_notional_exposure_limit() -> Dec {
    decimal::dec_lit(10000000, 0)
}

impl AbsoluteSafetyLimits {
    pub const MAX_OPEN_POSITIONS: usize = 50;

    pub const MAX_TRADES_PER_DAY: usize = 5000;

    pub fn max_leverage() -> (r: Dec)
        ensures
            r == max_leverage_limit(),
    {
        Dec::new(20, 0)
    }

    pub fn max_daily_loss_pct() -> (r: Dec)
        ensures
            r == max_daily_loss_limit(),
    {
        Dec::new(10, 0)
    }

    pub fn max_drawdown_pct() -> (r: Dec)
        ensures
            r == max_drawdown_limit(),
    {
        Dec::new(25, 0)
    }

    pub fn max_single_order_usd() -> (r: Dec)
        ensures
            r == max_single_order_limit(),
    {
        Dec::new(1000000, 0)
    }

    pub fn max_notional_exposure_usd() -> (r: Dec)
        ensures
            r == max_notional_exposure_limit(),
    {
        Dec::new(10000000, 0)
    }
}

/// The text `Display` writes for a `usize`.
pub uninterp spec fn usize_display(n: usize) -> Seq<char>;

/// Calls `usize`'s `to_string`.
#[verifier::external_body]
pub(crate) fn usize_to_string(n: usize) -> (r: String)
    ensures
        r@ == usize_display(n),
{
    n.to_string()
}

/// The error for a field above its absolute maximum.
pub open spec fn limit_error(field: Seq<char>, value: Seq<char>, max: Seq<char>) -> (Seq<
    char,
>, Seq<char>, Seq<char>) {
    (field, value, max)
}

/// The first limit a risk configuration breaks, checked in the order
/// leverage, daily loss, drawdown, open positions, single order size,
/// notional exposure, trades per day, as `(field, value, max)`; `None` when
/// all are within the limits.
pub open spec fn first_breached_limit(r: RiskConfig) -> Option<(Seq<char>, Seq<char>, Seq<char>)> {
    if r.max_leverage@ > max_leverage_limit()@ {
        Some(
            limit_error(
                "max_leverage"@,
                decimal::decimal_display(r.max_leverage),
                decimal::decimal_display(max_leverage_limit()),
            ),
        )
    } else if r.max_daily_loss_pct@ > max_daily_loss_limit()@ {
        Some(
            limit_error(
                "max_daily_loss_pct"@,
                decimal::decimal_display(r.max_daily_loss_pct),
                decimal::decimal_display(max_daily_loss_limit()),
            ),
        )
    } else if r.max_drawdown_pct@ > max_drawdown_limit()@ {
        Some(
            limit_error(
                "max_drawdown_pct"@,
                decimal::decimal_display(r.max_drawdown_pct),
                decimal::decimal_display(max_drawdown_limit()),
            ),
        )
    } else if r.max_open_positions > 50 {
        Some(
            limit_error(
                "max_open_positions"@,
                usize_display(r.max_open_positions),
                usize_display(50),
            ),
        )
    } else if r.max_single_order_usd@ > max_single_order_limit()@ {
        Some(
            limit_error(
                "max_single_order_usd"@,
                decimal::decimal_display(r.max_single_order_usd),
                decimal::decimal_display(max_single_order_limit()),
            ),
        )
    } else if r.max_notional_exposure_usd@ > max_notional_exposure_limit()@ {
        Some(
            limit_error(
                "max_notional_exposure_usd"@,
                decimal::decimal_display(r.max_notional_exposure_usd),
                decimal::decimal_display(max_notional_exposure_limit()),
            ),
        )
    } else if r.max_trades_per_day > 5000 {
        Some(
            limit_error(
                "max_trades_per_day"@,
                usize_display(r.max_trades_per_day),
                usize_display(5000),
            ),
        )
    } else {
        None
    }
}

/// Whether every risk limit of the configuration is within its maximum.
pub open spec fn within_safety_limits(r: RiskConfig) -> bool {
    &&& r.max_leverage@ <= max_leverage_limit()@
    &&& r.max_daily_loss_pct@ <= max_daily_loss_limit()@
    &&& r.max_drawdown_pct@ <= max_drawdown_limit()@
    &&& r.max_open_positions <= 50
    &&& r.max_single_order_usd@ <= max_single_order_limit()@
    &&& r.max_notional_exposure_usd@ <= max_notional_exposure_limit()@
    &&& r.max_trades_per_day <= 5000
}

fn limit_exceeded(field: &str, value: String, max: String) -> (r: ConfigError)
    ensures
        r matches ConfigError::SafetyLimitExceeded { field: f, value: v, max: m } && f@ == field@
            && v@ == value@ && m@ == max@,
{
    ConfigError::SafetyLimitExceeded { field: String::from_str(field), value, max }
}

impl AppConfig {
    /// Enforces the absolute safety limits on the risk section.  Fails with
    /// `SafetyLimitExceeded` naming the first field (in the order leverage,
    /// daily loss, drawdown, open positions, single order size, notional
    /// exposure, trades per day) whose value exceeds its maximum.
    pub fn validate_safety_limits(&self) -> (r: Result<(), ConfigError>)
        ensures
            r is Ok <==> first_breached_limit(self.risk) is None,
            r is Ok <==> within_safety_limits(self.risk),
            r matches Err(e) ==> (e matches ConfigError::SafetyLimitExceeded { field: f, value: v, max: m }
                && first_breached_limit(self.risk) == Some((f@, v@, m@))),
    {
        let risk = &self.risk;
        let max_lev = AbsoluteSafetyLimits::max_leverage();
        if risk.max_leverage.gt(&max_lev) {
            return Err(limit_exceeded("max_leverage", risk.max_leverage.to_string(), max_lev.to_string()));
        }
        let max_loss = AbsoluteSafetyLimits::max_daily_loss_pct();
        if risk.max_daily_loss_pct.gt(&max_loss) {
            return Err(
                limit_exceeded("max_daily_loss_pct", risk.max_daily_loss_pct.to_string(), max_loss.to_string()),
            );
        }
        let max_dd = AbsoluteSafetyLimits::max_drawdown_pct();
        if risk.max_drawdown_pct.gt(&max_dd) {
            return Err(
                limit_exceeded("max_drawdown_pct", risk.max_drawdown_pct.to_string(), max_dd.to_string()),
            );
        }
        if risk.max_open_positions > AbsoluteSafetyLimits::MAX_OPEN_POSITIONS {
            return Err(
                limit_exceeded(
                    "max_open_positions",
                    usize_to_string(risk.max_open_positions),
                    usize_to_string(AbsoluteSafetyLimits::MAX_OPEN_POSITIONS),
                ),
            );
        }
        let max_order = AbsoluteSafetyLimits::max_single_order_usd();
        if risk.max_single_order_usd.gt(&max_order) {
            return Err(
                limit_exceeded(
                    "max_single_order_usd",
                    risk.max_single_order_usd.to_string(),
                    max_order.to_string(),
                ),
            );
        }
        let max_notional = AbsoluteSafetyLimits::max_notional_exposure_usd();
        if risk.max_notional_exposure_usd.gt(&max_notional) {
            return Err(
                limit_exceeded(
                    "max_notional_exposure_usd",
                    risk.max_notional_exposure_usd.to_string(),
                    max_notional.to_string(),
                ),
            );
        }
        if risk.max_trades_per_day > AbsoluteSafetyLimits::MAX_TRADES_PER_DAY {
            return Err(
                limit_exceeded(
                    "max_trades_per_day",
                    usize_to_string(risk.max_trades_per_day),
                    usize_to_string(AbsoluteSafetyLimits::MAX_TRADES_PER_DAY),
                ),
            );
        }
        Ok(())
    }
}

} // verus!
