//! Domain types shared by the trading components: market data, orders,
//! positions, signals, trades and risk verdicts.  Instants are Unix
//! milliseconds (UTC).
use vstd::prelude::*;
use crate::decimal::Dec;

verus! {

/// Spot or USDT-margined futures market.
#[derive(Clone, Copy, Debug, PartialEq, Eq, Structural)]
pub enum MarketType {
    Spot,
    UsdtFutures,
}

/// Candle interval.
#[derive(Clone, Copy, Debug, PartialEq, Eq, Structural)]
pub enum Timeframe {
    M1,
    M5,
    M15,
    H1,
    H4,
    D1,
}

/// The exchange's interval code of a timeframe.
pub open spec fn interval_code(t: Timeframe) -> Seq<char> {
    match t {
        Timeframe::M1 => "1m"@,
        Timeframe::M5 => "5m"@,
        Timeframe::M15 => "15m"@,
        Timeframe::H1 => "1h"@,
        Timeframe::H4 => "4h"@,
        Timeframe::D1 => "1d"@,
    }
}

impl Timeframe {
    /// The exchange's interval code (`"1m"`, `"5m"`, `"15m"`, `"1h"`,
    /// `"4h"`, `"1d"`).
    pub fn as_binance_str(&self) -> (r: &'static str)
        ensures
            r@ == interval_code(*self),
    {
        match self {
            Timeframe::M1 => "1m",
            Timeframe::M5 => "5m",
            Timeframe::M15 => "15m",
            Timeframe::H1 => "1h",
            Timeframe::H4 => "4h",
            Timeframe::D1 => "1d",
        }
    }
}

/// Order side.
#[derive(Clone, Copy, Debug, PartialEq, Eq, Structural)]
pub enum Side {
    Buy,
    Sell,
}

/// Order type.
#[derive(Clone, Copy, Debug, PartialEq, Eq, Structural)]
pub enum OrderType {
    Market,
    Limit,
    StopLoss,
    StopLossLimit,
    TakeProfit,
    TakeProfitLimit,
    /// A limit order that only adds liquidity.
    PostOnly,
    /// A market order that only reduces a position.
    ReduceOnly,
}

/// Side of an open position.
#[derive(Clone, Copy, Debug, PartialEq, Eq, Structural)]
pub enum PositionSide {
    Long,
    Short,
    Flat,
}

/// What a strategy asks for.
#[derive(Clone, Copy, Debug, PartialEq, Eq, Structural)]
pub enum SignalDirection {
    Long,
    Short,
    Flat,
    ReduceLong,
    ReduceShort,
}

/// Best bid and ask of a symbol.
#[derive(Clone, Debug)]
pub struct TopOfBook {
    pub symbol: String,
    pub market_type: MarketType,
    pub timestamp_ms: i64,
    pub best_bid: Dec,
    pub best_bid_qty: Dec,
    pub best_ask: Dec,
    pub best_ask_qty: Dec,
}

/// One OHLCV bar.
#[derive(Clone, Debug)]
pub struct Candle {
    pub symbol: String,
    pub market_type: MarketType,
    pub timeframe: Timeframe,
    pub open_time_ms: i64,
    pub close_time_ms: i64,
    pub open: Dec,
    pub high: Dec,
    pub low: Dec,
    pub close: Dec,
    pub volume: Dec,
    pub quote_volume: Dec,
    pub trades: u64,
}

/// An open (or closed, when flat) position.
impl Candle {
    /// A copy of the candle.
    pub fn duplicate(&self) -> (r: Candle)
        ensures
            r == *self,
    {
        Candle {
            symbol: self.symbol.clone(),
            market_type: self.market_type,
            timeframe: self.timeframe,
            open_time_ms: self.open_time_ms,
            close_time_ms: self.close_time_ms,
            open: self.open,
            high: self.high,
            low: self.low,
            close: self.close,
            volume: self.volume,
            quote_volume: self.quote_volume,
            trades: self.trades,
        }
    }
}

#[derive(Clone, Debug)]
pub struct Position {
    pub symbol: String,
    pub market_type: MarketType,
    pub side: PositionSide,
    pub quantity: Dec,
    pub entry_price: Dec,
    pub current_price: Dec,
    pub unrealized_pnl: Dec,
    pub realized_pnl: Dec,
    pub total_commission: Dec,
    pub leverage: Dec,
    pub liquidation_price: Option<Dec>,
    pub opened_at_ms: i64,
    pub last_update_ms: i64,
    pub strategy_name: String,
}

/// A position is flat when its side is `Flat` or its quantity is zero.
pub open spec fn position_is_flat(p: Position) -> bool {
    p.side == PositionSide::Flat || p.quantity@ == 0
}

impl Position {
    /// Whether the position holds nothing.
    pub fn is_flat(&self) -> (r: bool)
        ensures
            r == position_is_flat(*self),
    {
        match self.side {
            PositionSide::Flat => true,
            _ => self.quantity.is_zero(),
        }
    }

    /// A copy of the position.
    pub fn duplicate(&self) -> (r: Position)
        ensures
            r == *self,
    {
        Position {
            symbol: self.symbol.clone(),
            market_type: self.market_type,
            side: self.side,
            quantity: self.quantity,
            entry_price: self.entry_price,
            current_price: self.current_price,
            unrealized_pnl: self.unrealized_pnl,
            realized_pnl: self.realized_pnl,
            total_commission: self.total_commission,
            leverage: self.leverage,
            liquidation_price: self.liquidation_price,
            opened_at_ms: self.opened_at_ms,
            last_update_ms: self.last_update_ms,
            strategy_name: self.strategy_name.clone(),
        }
    }

    /// Notional value `quantity * current_price`; `None` on overflow.
    pub fn notional_value(&self) -> (r: Option<Dec>)
        ensures
            r == crate::decimal::decimal_checked_mul(self.quantity, self.current_price),
    {
        self.quantity.mul(self.current_price)
    }
}

/// Explanatory data attached to a signal.  `signal_inputs` holds the
/// key/value pairs the strategy based its decision on, as text.
#[derive(Clone, Debug)]
pub struct SignalMetadata {
    pub signal_inputs: Vec<(String, String)>,
    pub uncertainty_score: Option<Dec>,
    pub regime: Option<String>,
    pub risk_overrides: Vec<String>,
}

/// A trading signal emitted by a strategy.
#[derive(Clone, Debug)]
pub struct Signal {
    pub strategy_name: String,
    pub symbol: String,
    pub market_type: MarketType,
    pub timeframe: Timeframe,
    pub timestamp_ms: i64,
    pub direction: SignalDirection,
    pub strength: Dec,
    pub confidence: Dec,
    pub entry_price: Option<Dec>,
    pub stop_loss: Option<Dec>,
    pub take_profit: Option<Dec>,
    pub time_stop_bars: Option<u32>,
    pub metadata: SignalMetadata,
}

/// Why an order was placed.
#[derive(Clone, Debug)]
pub struct OrderReason {
    pub strategy: String,
    pub signal_type: String,
    pub confidence: Dec,
    pub description: String,
}

/// How long a limit order stays on the book.
#[derive(Clone, Copy, Debug, PartialEq, Eq, Structural)]
pub enum TimeInForce {
    /// Good until cancelled.
    Gtc,
    /// Immediate or cancel.
    Ioc,
    /// Fill or kill.
    Fok,
}

/// An order to be submitted.
#[derive(Clone, Debug)]
pub struct OrderRequest {
    pub client_order_id: String,
    pub symbol: String,
    pub market_type: MarketType,
    pub side: Side,
    pub order_type: OrderType,
    pub quantity: Dec,
    pub price: Option<Dec>,
    pub stop_price: Option<Dec>,
    pub time_in_force: Option<TimeInForce>,
    pub reduce_only: bool,
    pub strategy_name: String,
    pub reason: OrderReason,
    pub created_at_ms: i64,
}

/// A completed fill.
impl OrderRequest {
    /// A copy of the request.
    pub fn duplicate(&self) -> (r: OrderRequest)
        ensures
            r == *self,
    {
        OrderRequest {
            client_order_id: self.client_order_id.clone(),
            symbol: self.symbol.clone(),
            market_type: self.market_type,
            side: self.side,
            order_type: self.order_type,
            quantity: self.quantity,
            price: self.price,
            stop_price: self.stop_price,
            time_in_force: self.time_in_force,
            reduce_only: self.reduce_only,
            strategy_name: self.strategy_name.clone(),
            reason: OrderReason {
                strategy: self.reason.strategy.clone(),
                signal_type: self.reason.signal_type.clone(),
                confidence: self.reason.confidence,
                description: self.reason.description.clone(),
            },
            created_at_ms: self.created_at_ms,
        }
    }
}

#[derive(Clone, Debug)]
pub struct TradeRecord {
    pub trade_id: String,
    pub client_order_id: String,
    pub symbol: String,
    pub market_type: MarketType,
    pub side: Side,
    pub quantity: Dec,
    pub price: Dec,
    pub commission: Dec,
    pub commission_asset: String,
    pub realized_pnl: Option<Dec>,
    pub strategy_name: String,
    pub timestamp_ms: i64,
}

/// Summary statistics of a backtest.
#[derive(Clone, Debug)]
pub struct PerformanceMetrics {
    pub total_return: Dec,
    pub total_return_pct: Dec,
    pub annualized_return_pct: Option<Dec>,
    pub max_drawdown_pct: Dec,
    pub sharpe_ratio: Option<Dec>,
    pub sortino_ratio: Option<Dec>,
    pub calmar_ratio: Option<Dec>,
    pub win_rate: Dec,
    pub profit_factor: Option<Dec>,
    pub total_trades: usize,
    pub avg_trade_return_pct: Dec,
    pub avg_win_pct: Dec,
    pub avg_loss_pct: Dec,
    pub max_consecutive_losses: usize,
    pub exposure_pct: Dec,
    pub total_commission: Dec,
}

/// Outcome of a pre-trade risk check.
#[derive(Clone, Debug)]
pub enum RiskVerdict {
    Approved,
    Rejected { reason: String },
    ReducedSize { new_quantity: Dec, reason: String },
}

/// The independent kill switches.
#[derive(Clone, Copy, Debug, PartialEq, Eq, Structural)]
pub enum KillSwitchType {
    Global,
    ExchangeConnectivity,
    StaleMarketData,
    ModelConfidence,
    ExtremeVolatility,
    OrderRejectionAnomaly,
    RunawayTrading,
    DailyLossLimit,
    MaxDrawdown,
}

/// State of a kill switch: `Active` means armed and not fired.
#[derive(Clone, Copy, Debug, PartialEq, Eq, Structural)]
pub enum KillSwitchState {
    Active,
    Triggered,
}

/// Portfolio-wide risk figures.
#[derive(Clone, Debug)]
pub struct PortfolioRiskSnapshot {
    pub total_equity: Dec,
    pub total_notional_exposure: Dec,
    pub total_unrealized_pnl: Dec,
    pub total_realized_pnl_today: Dec,
    pub current_drawdown_pct: Dec,
    pub peak_equity: Dec,
    pub open_position_count: usize,
    pub leverage_ratio: Dec,
    pub var_95: Option<Dec>,
    pub cvar_95: Option<Dec>,
}

} // verus!
