use opentrade::config::{PortfolioConfig, RiskConfig};
use opentrade::decimal::Dec;
use opentrade::portfolio::PortfolioManager;
use opentrade::risk::RiskEngine;
use opentrade::types::{
    KillSwitchState, KillSwitchType, MarketType, OrderReason, OrderRequest, OrderType, Position,
    PositionSide, RiskVerdict, Side, Signal, SignalDirection, SignalMetadata, Timeframe,
};

fn d(m: i64, s: u32) -> Dec {
    Dec::new(m, s)
}

fn risk_config() -> RiskConfig {
    RiskConfig {
        max_position_size_usd: d(100000, 0),
        max_leverage: d(3, 0),
        max_daily_loss_pct: d(2, 0),
        max_drawdown_pct: d(10, 0),
        max_open_positions: 5,
        max_notional_exposure_usd: d(500000, 0),
        max_single_order_usd: d(50000, 0),
        max_trades_per_day: 100,
        max_correlated_exposure_pct: d(40, 0),
        stale_data_max_age_secs: 30,
        max_spread_bps: d(50, 0),
        min_confidence_threshold: d(5, 1),
        extreme_volatility_multiplier: d(3, 0),
        max_order_rejections_per_hour: 5,
        max_orders_per_minute: 30,
    }
}

fn metadata() -> SignalMetadata {
    SignalMetadata {
        signal_inputs: Vec::new(),
        uncertainty_score: None,
        regime: None,
        risk_overrides: Vec::new(),
    }
}

fn signal(confidence: Dec, take_profit: Option<Dec>) -> Signal {
    Signal {
        strategy_name: "test".to_string(),
        symbol: "BTCUSDT".to_string(),
        market_type: MarketType::Spot,
        timeframe: Timeframe::H1,
        timestamp_ms: 0,
        direction: SignalDirection::Long,
        strength: d(1, 0),
        confidence,
        entry_price: Some(d(50000, 0)),
        stop_loss: Some(d(49000, 0)),
        take_profit,
        time_stop_bars: None,
        metadata: metadata(),
    }
}

fn order(quantity: Dec) -> OrderRequest {
    OrderRequest {
        client_order_id: "order-1".to_string(),
        symbol: "BTCUSDT".to_string(),
        market_type: MarketType::Spot,
        side: Side::Buy,
        order_type: OrderType::Market,
        quantity,
        price: Some(d(50000, 0)),
        stop_price: None,
        time_in_force: None,
        reduce_only: false,
        strategy_name: "test".to_string(),
        reason: OrderReason {
            strategy: "test".to_string(),
            signal_type: "long".to_string(),
            confidence: d(7, 1),
            description: "test order".to_string(),
        },
        created_at_ms: 0,
    }
}

fn portfolio_config() -> PortfolioConfig {
    PortfolioConfig {
        initial_capital: d(100000, 0),
        risk_per_trade_pct: d(1, 0),
        target_volatility_pct: Some(d(15, 0)),
        kelly_fraction: d(25, 2),
        max_portfolio_leverage: d(2, 0),
        concentration_limit_pct: d(25, 0),
        correlation_lookback_bars: 100,
        rebalance_threshold_pct: d(5, 0),
    }
}

fn position(symbol: &str, strategy: &str, side: PositionSide, qty: Dec) -> Position {
    Position {
        symbol: symbol.to_string(),
        market_type: MarketType::Spot,
        side,
        quantity: qty,
        entry_price: d(50000, 0),
        current_price: d(51000, 0),
        unrealized_pnl: d(100, 0),
        realized_pnl: d(0, 0),
        total_commission: d(0, 0),
        leverage: d(1, 0),
        liquidation_price: None,
        opened_at_ms: 0,
        last_update_ms: 0,
        strategy_name: strategy.to_string(),
    }
}

#[test]
fn approve_valid_order() {
    let mut engine = RiskEngine::new(risk_config(), d(100000, 0));
    let verdict = engine.check_order(&signal(d(7, 1), Some(d(52000, 0))), &order(d(1, 1)), &[]);
    assert!(matches!(verdict, Some(RiskVerdict::Approved)));
}

#[test]
fn reject_low_confidence() {
    let mut engine = RiskEngine::new(risk_config(), d(100000, 0));
    let verdict = engine.check_order(&signal(d(3, 1), Some(d(52000, 0))), &order(d(1, 1)), &[]);
    assert!(matches!(verdict, Some(RiskVerdict::Rejected { .. })));
}

#[test]
fn reject_when_kill_switch_triggered() {
    let mut engine = RiskEngine::new(risk_config(), d(100000, 0));
    engine.trigger_kill_switch(KillSwitchType::Global, "test");
    let verdict = engine.check_order(&signal(d(7, 1), Some(d(52000, 0))), &order(d(1, 1)), &[]);
    assert!(matches!(verdict, Some(RiskVerdict::Rejected { .. })));
}

#[test]
fn drawdown_tracking() {
    let mut engine = RiskEngine::new(risk_config(), d(100000, 0));
    assert!(engine.record_trade(d(-5000, 0)));
    assert_eq!(engine.current_equity(), d(95000, 0));
    let snap = engine.snapshot(&[]).unwrap();
    assert_eq!(snap.current_drawdown_pct, d(5, 0));
}

#[test]
fn daily_loss_triggers_kill_switch() {
    let mut engine = RiskEngine::new(risk_config(), d(100000, 0));
    assert!(engine.record_trade(d(-3000, 0)));
    let verdict = engine.check_order(&signal(d(7, 1), Some(d(52000, 0))), &order(d(1, 1)), &[]);
    assert!(matches!(verdict, Some(RiskVerdict::Rejected { .. })));
    assert_eq!(engine.kill_switch_state(KillSwitchType::DailyLossLimit), KillSwitchState::Triggered);
}

#[test]
fn large_order_is_reduced() {
    let mut engine = RiskEngine::new(risk_config(), d(100000, 0));
    // 2 BTC at 50000 = 100000 > 50000 single-order limit
    let verdict = engine.check_order(&signal(d(7, 1), None), &order(d(2, 0)), &[]);
    match verdict {
        Some(RiskVerdict::ReducedSize { new_quantity, reason }) => {
            assert_eq!(new_quantity, d(1, 0));
            assert!(reason.starts_with("Notional "));
        }
        _ => panic!("expected a reduced size"),
    }
}

#[test]
fn reset_kill_switch_restores_trading() {
    let mut engine = RiskEngine::new(risk_config(), d(100000, 0));
    engine.trigger_kill_switch(KillSwitchType::RunawayTrading, "test");
    assert!(engine.any_kill_switch_triggered());
    engine.reset_kill_switch(KillSwitchType::RunawayTrading);
    assert!(!engine.any_kill_switch_triggered());
    let verdict = engine.check_order(&signal(d(7, 1), None), &order(d(1, 1)), &[]);
    assert!(matches!(verdict, Some(RiskVerdict::Approved)));
}

#[test]
fn too_many_positions_rejected() {
    let mut cfg = risk_config();
    cfg.max_open_positions = 1;
    let mut engine = RiskEngine::new(cfg, d(100000, 0));
    let open = vec![position("ETHUSDT", "a", PositionSide::Long, d(1, 0))];
    let verdict = engine.check_order(&signal(d(7, 1), None), &order(d(1, 1)), &open);
    match verdict {
        Some(RiskVerdict::Rejected { reason }) => assert_eq!(reason, "Max open positions 1 reached"),
        _ => panic!("expected a rejection"),
    }
}

#[test]
fn position_sizing_basic() {
    let pm = PortfolioManager::new(portfolio_config());
    let size = pm
        .compute_position_size(&signal(d(7, 1), Some(d(52000, 0))), d(50000, 0), Some(d(500, 0)))
        .unwrap();
    assert!(size.gt(&d(0, 0)));
    let notional = size.mul(d(50000, 0)).unwrap();
    assert!(notional.le(&d(25000, 0)));
}

#[test]
fn drawdown_reduces_size() {
    let mut pm = PortfolioManager::new(portfolio_config());
    pm.update_equity(d(92000, 0));
    let s = signal(d(7, 1), None);
    let size_dd = pm.compute_position_size(&s, d(50000, 0), None).unwrap();
    let pm_normal = PortfolioManager::new(portfolio_config());
    let size_normal = pm_normal.compute_position_size(&s, d(50000, 0), None).unwrap();
    assert!(size_dd.lt(&size_normal));
}

#[test]
fn position_size_exact_value() {
    // risk 1% of 100000 = 1000; stop distance 1000 -> 1 unit; kelly 0.25 -> 0.25;
    // concentration 25000/50000 = 0.5; leverage 200000/50000 = 4
    let pm = PortfolioManager::new(portfolio_config());
    let size = pm.compute_position_size(&signal(d(7, 1), None), d(50000, 0), None).unwrap();
    assert_eq!(size, d(25, 2));
    assert_eq!(pm.compute_position_size(&signal(d(7, 1), None), d(0, 0), None), Some(d(0, 0)));
}

#[test]
fn portfolio_positions_by_key() {
    let mut pm = PortfolioManager::new(portfolio_config());
    pm.update_position(position("BTCUSDT", "trend", PositionSide::Long, d(1, 0)));
    pm.update_position(position("BTCUSDT", "meanrev", PositionSide::Short, d(2, 0)));
    assert_eq!(pm.positions_vec().len(), 2);
    let p = pm.get_position(&"BTCUSDT".to_string(), &"meanrev".to_string()).unwrap();
    assert_eq!(p.quantity, d(2, 0));
    // replacing keeps one entry per key
    pm.update_position(position("BTCUSDT", "trend", PositionSide::Long, d(3, 0)));
    assert_eq!(pm.open_positions().len(), 2);
    assert_eq!(pm.total_notional_exposure(), Some(d(255000, 0)));
    assert_eq!(pm.total_unrealized_pnl(), Some(d(200, 0)));
    // a flat position removes the entry
    pm.update_position(position("BTCUSDT", "trend", PositionSide::Flat, d(0, 0)));
    assert!(pm.get_position(&"BTCUSDT".to_string(), &"trend".to_string()).is_none());
    assert_eq!(pm.positions_vec().len(), 1);
}

#[test]
fn equity_and_peak() {
    let mut pm = PortfolioManager::new(portfolio_config());
    pm.update_equity(d(110000, 0));
    pm.update_equity(d(90000, 0));
    assert_eq!(pm.equity(), d(90000, 0));
}

#[test]
fn position_size_within_caps() {
    let mut cfg = portfolio_config();
    cfg.risk_per_trade_pct = d(50, 0);
    cfg.kelly_fraction = d(1, 0);
    cfg.target_volatility_pct = None;
    let pm = PortfolioManager::new(cfg);
    let mut s = signal(d(7, 1), None);
    s.stop_loss = None;
    let size = pm.compute_position_size(&s, d(50000, 0), None).unwrap();
    assert!(!size.lt(&d(0, 0)));
    // Concentration cap: 100000 * 25 / 100 / 50000 = 0.5 units.
    assert_eq!(size, d(5, 1));
    let zero = pm.compute_position_size(&s, d(0, 0), None).unwrap();
    assert_eq!(zero, d(0, 0));
}
