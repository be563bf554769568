use opentrade::config::{
    AppConfig, ConfigError, ExchangeConfig, ExecutionConfig, FeatureFlagsConfig, PortfolioConfig,
    RiskConfig, StorageConfig, TelemetryConfig, TradingMode,
};
use opentrade::decimal::Dec;
use opentrade::execution::{create_tracked_order, BracketPair, OrderManager, OrderStatus};
use opentrade::live::{
    apply_order_update, bracket_for, bracket_leg_request, equity_restorable, filled_leg, flatten_request,
    is_margin_error, reconciled_status_changed, BracketLeg, OrderBuild, TradingCore,
};
use opentrade::portfolio::PortfolioManager;
use opentrade::risk::RiskEngine;
use opentrade::types::{
    Candle, MarketType, OrderType, Position, PositionSide, Side, Signal, SignalDirection,
    SignalMetadata, Timeframe,
};

fn d(m: i64, s: u32) -> Dec {
    Dec::new(m, s)
}

fn risk_config() -> RiskConfig {
    RiskConfig {
        max_position_size_usd: d(100000, 0),
        max_leverage: d(3, 0),
        max_daily_loss_pct: d(2, 0),
        max_drawdown_pct: d(10, 0),
        max_open_positions: 5,
        max_notional_exposure_usd: d(500000, 0),
        max_single_order_usd: d(50000, 0),
        max_trades_per_day: 100,
        max_correlated_exposure_pct: d(40, 0),
        stale_data_max_age_secs: 30,
        max_spread_bps: d(50, 0),
        min_confidence_threshold: d(5, 1),
        extreme_volatility_multiplier: d(3, 0),
        max_order_rejections_per_hour: 5,
        max_orders_per_minute: 30,
    }
}

fn portfolio_config() -> PortfolioConfig {
    PortfolioConfig {
        initial_capital: d(100000, 0),
        risk_per_trade_pct: d(1, 0),
        target_volatility_pct: Some(d(15, 0)),
        kelly_fraction: d(25, 2),
        max_portfolio_leverage: d(2, 0),
        concentration_limit_pct: d(25, 0),
        correlation_lookback_bars: 100,
        rebalance_threshold_pct: d(5, 0),
    }
}

fn app_config(risk: RiskConfig) -> AppConfig {
    AppConfig {
        mode: TradingMode::Paper,
        exchange: ExchangeConfig {
            name: "binance".to_string(),
            use_testnet: true,
            base_url: None,
            api_key_env: "BINANCE_API_KEY".to_string(),
            api_secret_env: "BINANCE_API_SECRET".to_string(),
            rate_limit_per_minute: 1200,
            recv_window_ms: 5000,
            timeout_secs: 30,
            ws_reconnect_delay_ms: 1000,
            ws_max_reconnect_attempts: 10,
        },
        symbols: Vec::new(),
        strategies: Vec::new(),
        risk,
        portfolio: portfolio_config(),
        execution: ExecutionConfig {
            default_order_type: "limit".to_string(),
            slippage_bps: d(5, 0),
            max_retries: 3,
            retry_delay_ms: 500,
            cancel_timeout_secs: 10,
            reconciliation_interval_secs: 60,
            smart_order_splitting: false,
            max_split_orders: 5,
            min_order_size_usd: d(10, 0),
        },
        backtest: None,
        storage: StorageConfig {
            database_path: "./data/opentrade.db".to_string(),
            data_dir: "./data".to_string(),
            journal_enabled: true,
            max_candle_cache_size: 100000,
        },
        telemetry: TelemetryConfig {
            log_level: "info".to_string(),
            log_file: None,
            json_logs: false,
            metrics_enabled: true,
            metrics_port: 9090,
            tracing_enabled: true,
        },
        features: FeatureFlagsConfig {
            enable_ml_models: false,
            enable_market_making: false,
            enable_statistical_arbitrage: false,
            enable_smart_order_routing: false,
            enable_monte_carlo_stress: true,
            enable_neural_brain: false,
            enable_collective_thinking: false,
        },
    }
}

fn signal(direction: SignalDirection) -> Signal {
    Signal {
        strategy_name: "trend".to_string(),
        symbol: "BTCUSDT".to_string(),
        market_type: MarketType::Spot,
        timeframe: Timeframe::H1,
        timestamp_ms: 0,
        direction,
        strength: d(1, 0),
        confidence: d(7, 1),
        entry_price: Some(d(50000, 0)),
        stop_loss: Some(d(49000, 0)),
        take_profit: None,
        time_stop_bars: None,
        metadata: SignalMetadata {
            signal_inputs: vec![("reason".to_string(), "x".to_string())],
            uncertainty_score: None,
            regime: None,
            risk_overrides: Vec::new(),
        },
    }
}

fn candle(close: Dec) -> Candle {
    Candle {
        symbol: "BTCUSDT".to_string(),
        market_type: MarketType::Spot,
        timeframe: Timeframe::H1,
        open_time_ms: 0,
        close_time_ms: 1,
        open: close,
        high: close,
        low: close,
        close,
        volume: d(1, 0),
        quote_volume: d(1, 0),
        trades: 1,
    }
}

fn trading_core() -> TradingCore {
    TradingCore {
        risk_engine: RiskEngine::new(risk_config(), d(100000, 0)),
        portfolio: PortfolioManager::new(portfolio_config()),
        min_order_size_usd: d(10, 0),
    }
}

#[test]
fn safe_config_validates() {
    assert!(app_config(risk_config()).validate_safety_limits().is_ok());
}

#[test]
fn reject_unsafe_leverage() {
    let mut risk = risk_config();
    risk.max_leverage = d(50, 0);
    let err = app_config(risk).validate_safety_limits().unwrap_err();
    match err {
        ConfigError::SafetyLimitExceeded { field, value, .. } => {
            assert_eq!(field, "max_leverage");
            assert_eq!(value, "50");
        }
        _ => panic!("expected a safety limit error"),
    }
}

#[test]
fn reject_unsafe_drawdown() {
    let mut risk = risk_config();
    risk.max_drawdown_pct = d(30, 0);
    assert!(matches!(
        app_config(risk).validate_safety_limits(),
        Err(ConfigError::SafetyLimitExceeded { .. })
    ));
}

#[test]
fn entry_signal_builds_market_order() {
    let c = trading_core();
    match c.build_order_at(&signal(SignalDirection::Long), &candle(d(50000, 0)), 7) {
        OrderBuild::Order { request, cancel_brackets } => {
            assert!(!cancel_brackets);
            assert_eq!(request.side, Side::Buy);
            assert_eq!(request.order_type, OrderType::Market);
            assert_eq!(request.quantity, d(25, 2));
            assert_eq!(request.price, Some(d(50000, 0)));
            assert!(!request.reduce_only);
            assert_eq!(request.reason.signal_type, "Long");
            assert_eq!(request.created_at_ms, 7);
        }
        _ => panic!("expected an order"),
    }
}

#[test]
fn exit_without_position_is_skipped() {
    let c = trading_core();
    assert!(matches!(
        c.build_order_at(&signal(SignalDirection::Flat), &candle(d(50000, 0)), 0),
        OrderBuild::Skip
    ));
    assert!(matches!(
        c.build_order_at(&signal(SignalDirection::ReduceShort), &candle(d(50000, 0)), 0),
        OrderBuild::Order { cancel_brackets: true, .. }
    ));
}

#[test]
fn small_order_raised_to_minimum_notional() {
    let mut c = trading_core();
    c.min_order_size_usd = d(20000, 0);
    match c.build_order_at(&signal(SignalDirection::Short), &candle(d(50000, 0)), 0) {
        OrderBuild::Order { request, .. } => {
            // 0.25 * 50000 = 12500 < 20000: 20000 / 50000 * 1.01 = 0.404
            assert_eq!(request.quantity, d(404, 3));
            assert_eq!(request.side, Side::Sell);
        }
        _ => panic!("expected an order"),
    }
}

#[test]
fn review_and_fills() {
    let mut c = trading_core();
    let sig = signal(SignalDirection::Long);
    let request = match c.build_order_at(&sig, &candle(d(50000, 0)), 0) {
        OrderBuild::Order { request, .. } => request,
        _ => panic!("expected an order"),
    };
    let approved = c.review_order_at(&sig, request, 0).unwrap().unwrap();
    let entry = c.book_entry_fill(&sig, &approved.client_order_id, Side::Buy, d(1, 0), d(50000, 0), d(5, 0), &"USDT".to_string(), 10);
    assert_eq!(entry.realized_pnl, None);
    let pos: &Position = c.portfolio.get_position(&"BTCUSDT".to_string(), &"trend".to_string()).unwrap();
    assert_eq!(pos.side, PositionSide::Long);
    let exit = signal(SignalDirection::Flat);
    let trade = c
        .book_exit_fill(&exit, &"x".to_string(), Side::Sell, d(1, 0), d(51000, 0), d(5, 0), &"USDT".to_string(), 20)
        .unwrap();
    assert_eq!(trade.realized_pnl, Some(d(995, 0)));
    assert_eq!(c.risk_engine.current_equity(), d(100995, 0));
    assert_eq!(c.portfolio.equity(), d(100995, 0));
    assert!(c.portfolio.get_position(&"BTCUSDT".to_string(), &"trend".to_string()).is_none());
    assert!(c
        .book_exit_fill(&exit, &"y".to_string(), Side::Sell, d(1, 0), d(51000, 0), d(5, 0), &"USDT".to_string(), 30)
        .is_none());
}

#[test]
fn rejection_reason_passed_on() {
    let mut c = trading_core();
    let mut sig = signal(SignalDirection::Long);
    sig.confidence = d(1, 1);
    let request = match c.build_order_at(&sig, &candle(d(50000, 0)), 0) {
        OrderBuild::Order { request, .. } => request,
        _ => panic!("expected an order"),
    };
    let verdict = c.review_order_at(&sig, request, 0).unwrap();
    assert_eq!(verdict.unwrap_err(), "Confidence 0.1 below threshold 0.5");
}

#[test]
fn margin_errors_recognised() {
    assert!(is_margin_error("code -2019: Margin is insufficient."));
    assert!(is_margin_error("Margin is insufficient"));
    assert!(!is_margin_error("code -1013: filter failure"));
}

#[test]
fn bracket_legs_protect_the_entry() {
    let mut c = trading_core();
    let sig = signal(SignalDirection::Long);
    let request = match c.build_order_at(&sig, &candle(d(50000, 0)), 0) {
        OrderBuild::Order { request, .. } => request,
        _ => panic!("expected an order"),
    };
    let mut entry = create_tracked_order(request, 0);
    entry.filled_quantity = d(2, 0);
    let sl = bracket_leg_request(&entry, &sig, d(50010, 0), BracketLeg::StopLoss, 5).unwrap();
    assert_eq!(sl.side, Side::Sell);
    assert_eq!(sl.order_type, OrderType::StopLoss);
    assert_eq!(sl.quantity, d(2, 0));
    assert_eq!(sl.stop_price, Some(d(49000, 0)));
    assert!(sl.reduce_only);
    assert_eq!(sl.reason.signal_type, "stop_loss");
    assert_eq!(sl.reason.description, "Stop loss for entry at 50010, stop at 49000");
    assert!(bracket_leg_request(&entry, &sig, d(50010, 0), BracketLeg::TakeProfit, 5).is_none());
    let pair = bracket_for(&entry.client_order_id, Some(sl.client_order_id.clone()), None, &"BTCUSDT".to_string()).unwrap();
    assert_eq!(filled_leg(&pair, &sl.client_order_id), Some((true, None)));
    assert_eq!(filled_leg(&pair, &"other".to_string()), None);
    assert!(bracket_for(&entry.client_order_id, None, None, &"BTCUSDT".to_string()).is_none());
    let mut mgr = OrderManager::new(10);
    mgr.register_bracket(pair);
    mgr.register_bracket(BracketPair {
        entry_order_id: "e2".to_string(),
        stop_loss_order_id: None,
        take_profit_order_id: Some("t2".to_string()),
        symbol: "ETHUSDT".to_string(),
    });
    assert_eq!(mgr.brackets_for_symbol(&"ETHUSDT".to_string()).len(), 1);
    assert_eq!(mgr.brackets_for_symbol(&"BTCUSDT".to_string())[0].entry_order_id, entry.client_order_id);
}

#[test]
fn bracket_exit_closes_first_position_in_symbol() {
    let mut c = TradingCore::new(risk_config(), portfolio_config(), d(10, 0));
    let sig = signal(SignalDirection::Long);
    c.book_entry_fill(&sig, &"e".to_string(), Side::Buy, d(1, 0), d(50000, 0), d(0, 0), &"USDT".to_string(), 1);
    let t = c
        .book_bracket_exit(&"BTCUSDT".to_string(), &"sl".to_string(), d(1, 0), Some(d(49000, 0)), d(5, 0), 2)
        .unwrap();
    assert_eq!(t.realized_pnl, Some(d(-1005, 0)));
    assert_eq!(t.side, Side::Sell);
    assert_eq!(t.commission_asset, "USDT");
    assert_eq!(c.portfolio.equity(), d(98995, 0));
    assert!(c.book_bracket_exit(&"BTCUSDT".to_string(), &"tp".to_string(), d(1, 0), None, d(0, 0), 3).is_none());
}

#[test]
fn order_updates_and_flattening() {
    let mut c = TradingCore::new(risk_config(), portfolio_config(), d(10, 0));
    let sig = signal(SignalDirection::Short);
    c.book_entry_fill(&sig, &"e".to_string(), Side::Sell, d(3, 0), d(100, 0), d(0, 0), &"USDT".to_string(), 1);
    let pos = c.portfolio.get_position(&"BTCUSDT".to_string(), &"trend".to_string()).unwrap().clone();
    let q = flatten_request(&pos, 9).unwrap();
    assert_eq!(q.side, Side::Buy);
    assert_eq!(q.quantity, d(3, 0));
    assert_eq!(q.strategy_name, "emergency_flatten");
    let mut order = create_tracked_order(q, 9);
    apply_order_update(&mut order, OrderStatus::Filled, d(3, 0), Some(d(101, 0)), d(1, 1), 12);
    assert_eq!(order.status, OrderStatus::Filled);
    assert_eq!(order.average_fill_price, Some(d(101, 0)));
    assert_eq!(order.last_update_ms, 12);
    assert!(reconciled_status_changed(OrderStatus::Filled));
    assert!(!reconciled_status_changed(OrderStatus::Pending));
    assert!(equity_restorable(d(150000, 0), d(100000, 0)));
    assert!(!equity_restorable(d(250000, 0), d(100000, 0)));
    assert!(!equity_restorable(d(50000, 0), d(100000, 0)));
    assert!(!equity_restorable(d(1, 0), d(0, 0)));
}

#[test]
fn reject_unsafe_notional_exposure() {
    let mut risk = risk_config();
    risk.max_notional_exposure_usd = d(20000000, 0);
    let err = app_config(risk).validate_safety_limits().unwrap_err();
    match err {
        ConfigError::SafetyLimitExceeded { field, value, max } => {
            assert_eq!(field, "max_notional_exposure_usd");
            assert_eq!(value, "20000000");
            assert_eq!(max, "10000000");
        }
        _ => panic!("expected a safety limit error"),
    }
}

#[test]
fn reject_unsafe_trades_per_day() {
    let mut risk = risk_config();
    risk.max_trades_per_day = 6000;
    let err = app_config(risk).validate_safety_limits().unwrap_err();
    match err {
        ConfigError::SafetyLimitExceeded { field, value, max } => {
            assert_eq!(field, "max_trades_per_day");
            assert_eq!(value, "6000");
            assert_eq!(max, "5000");
        }
        _ => panic!("expected a safety limit error"),
    }
}

#[test]
fn limits_at_their_maxima_validate() {
    let mut risk = risk_config();
    risk.max_notional_exposure_usd = d(10000000, 0);
    risk.max_trades_per_day = 5000;
    assert!(app_config(risk).validate_safety_limits().is_ok());
}
