use opentrade::backtest::{check_stop_target, compute_metrics, compute_trade_pnl, FillSimulator};
use opentrade::backtest_run::run_backtest;
use opentrade::config::{BacktestConfig, PortfolioConfig, RiskConfig};
use opentrade::decimal::Dec;
use opentrade::execution::OrderStatus;
use opentrade::features::compute_features;
use opentrade::live::TradingCore;
use opentrade::market_data::CandleBuffer;
use opentrade::paper::PaperExchange;
use opentrade::regime::Regime;
use opentrade::mean_reversion::MeanReversion;
use opentrade::strategy::Strategy;
use opentrade::trend::TrendFollowing;
use opentrade::types::{
    Candle, MarketType, OrderReason, OrderRequest, OrderType, Position, PositionSide, Side, Timeframe,
    TradeRecord,
};

fn d(m: i64, s: u32) -> Dec {
    Dec::new(m, s)
}

fn position(side: PositionSide) -> Position {
    Position {
        symbol: "BTCUSDT".to_string(),
        market_type: MarketType::Spot,
        side,
        quantity: d(1, 0),
        entry_price: d(50000, 0),
        current_price: d(51000, 0),
        unrealized_pnl: d(0, 0),
        realized_pnl: d(0, 0),
        total_commission: d(0, 0),
        leverage: d(1, 0),
        liquidation_price: None,
        opened_at_ms: 0,
        last_update_ms: 0,
        strategy_name: "test".to_string(),
    }
}

fn candle(i: i64, trending_up: bool) -> Candle {
    let offset = if trending_up { i * 10 } else { -i * 10 };
    let close = d(50000 + offset, 0);
    let t = 1_700_000_000_000i64 + 3_600_000 * i;
    Candle {
        symbol: "BTCUSDT".to_string(),
        market_type: MarketType::Spot,
        timeframe: Timeframe::H1,
        open_time_ms: t,
        close_time_ms: t + 3_600_000,
        open: close.sub(d(5, 0)).unwrap(),
        high: close.add(d(50, 0)).unwrap(),
        low: close.sub(d(50, 0)).unwrap(),
        close,
        volume: d(100, 0),
        quote_volume: close.mul(d(100, 0)).unwrap(),
        trades: 500,
    }
}

fn bt_config() -> BacktestConfig {
    BacktestConfig {
        start_date: "2024-01-01".to_string(),
        end_date: "2024-06-30".to_string(),
        fee_rate_bps: d(10, 0),
        slippage_bps: d(5, 0),
        initial_capital: d(100000, 0),
        enable_partial_fills: false,
        latency_ms: 50,
        use_funding_fees: false,
    }
}

fn risk_config() -> RiskConfig {
    RiskConfig {
        max_position_size_usd: d(100000, 0),
        max_leverage: d(3, 0),
        max_daily_loss_pct: d(2, 0),
        max_drawdown_pct: d(10, 0),
        max_open_positions: 5,
        max_notional_exposure_usd: d(500000, 0),
        max_single_order_usd: d(50000, 0),
        max_trades_per_day: 100,
        max_correlated_exposure_pct: d(40, 0),
        stale_data_max_age_secs: 30,
        max_spread_bps: d(50, 0),
        min_confidence_threshold: d(5, 1),
        extreme_volatility_multiplier: d(3, 0),
        max_order_rejections_per_hour: 5,
        max_orders_per_minute: 30,
    }
}

fn portfolio_config() -> PortfolioConfig {
    PortfolioConfig {
        initial_capital: d(100000, 0),
        risk_per_trade_pct: d(1, 0),
        target_volatility_pct: Some(d(15, 0)),
        kelly_fraction: d(25, 2),
        max_portfolio_leverage: d(2, 0),
        concentration_limit_pct: d(25, 0),
        correlation_lookback_bars: 100,
        rebalance_threshold_pct: d(5, 0),
    }
}

fn trade(pnl: Option<Dec>) -> TradeRecord {
    TradeRecord {
        trade_id: "t".to_string(),
        client_order_id: "c".to_string(),
        symbol: "BTCUSDT".to_string(),
        market_type: MarketType::Spot,
        side: Side::Sell,
        quantity: d(1, 0),
        price: d(100, 0),
        commission: d(0, 0),
        commission_asset: "USDT".to_string(),
        realized_pnl: pnl,
        strategy_name: "s".to_string(),
        timestamp_ms: 0,
    }
}

#[test]
fn fill_simulator_slippage() {
    let sim = FillSimulator::new(d(10, 0), d(5, 0));
    let buy = sim.simulate_fill_price(d(50000, 0), Side::Buy).unwrap();
    assert!(buy.gt(&d(50000, 0)));
    let sell = sim.simulate_fill_price(d(50000, 0), Side::Sell).unwrap();
    assert!(sell.lt(&d(50000, 0)));
}

#[test]
fn fill_simulator_commission() {
    let sim = FillSimulator::new(d(10, 0), d(5, 0));
    assert_eq!(sim.compute_commission(d(50000, 0)), Some(d(50, 0)));
}

#[test]
fn compute_trade_pnl_long() {
    assert_eq!(compute_trade_pnl(&position(PositionSide::Long), d(51000, 0)), Some(d(1000, 0)));
}

#[test]
fn compute_trade_pnl_short() {
    assert_eq!(compute_trade_pnl(&position(PositionSide::Short), d(49000, 0)), Some(d(1000, 0)));
}

#[test]
fn fill_price_exact() {
    let sim = FillSimulator::new(d(10, 0), d(5, 0));
    // 5 bps of 50000 = 25
    assert_eq!(sim.simulate_fill_price(d(50000, 0), Side::Buy), Some(d(50025, 0)));
    assert_eq!(sim.simulate_fill_price(d(50000, 0), Side::Sell), Some(d(49975, 0)));
}

#[test]
fn stop_checked_before_target() {
    let c = Candle {
        low: d(48000, 0),
        high: d(53000, 0),
        ..candle(0, true)
    };
    let r = check_stop_target(&position(PositionSide::Long), &c, Some(d(49000, 0)), Some(d(52000, 0)));
    assert_eq!(r, (true, d(49000, 0)));
    let r = check_stop_target(&position(PositionSide::Short), &c, Some(d(52500, 0)), Some(d(48500, 0)));
    assert_eq!(r, (true, d(52500, 0)));
    let r = check_stop_target(&position(PositionSide::Long), &c, None, None);
    assert_eq!(r, (false, c.close));
}

#[test]
fn metrics_of_trades() {
    let trades = vec![
        trade(None),
        trade(Some(d(200, 0))),
        trade(Some(d(-100, 0))),
        trade(Some(d(-50, 0))),
        trade(Some(d(100, 0))),
    ];
    let m = compute_metrics(&trades, d(1000, 0), d(1150, 0), d(3, 0)).unwrap();
    assert_eq!(m.total_trades, 5);
    assert_eq!(m.total_return, d(150, 0));
    assert_eq!(m.total_return_pct, d(15, 0));
    assert_eq!(m.win_rate, d(50, 0));
    assert_eq!(m.max_consecutive_losses, 2);
    assert_eq!(m.profit_factor, Some(d(2, 0)));
    assert_eq!(m.avg_win_pct, d(150, 0));
    assert_eq!(m.avg_loss_pct, d(-75, 0));
    assert_eq!(m.total_commission, d(3, 0));
}

#[test]
fn backtest_runs_with_trending_data() {
    let candles: Vec<Candle> = (0..200).map(|i| candle(i, true)).collect();
    let mut strategy = TrendFollowing::new(&Vec::new());
    let result = run_backtest(&candles, &mut strategy, &bt_config(), &risk_config(), &portfolio_config())
        .unwrap();
    assert!(result.metrics.total_trades > 0 || candles.len() > 51);
    assert!(!result.equity_curve.is_empty());
}

#[test]
fn backtest_short_history_is_empty() {
    let candles: Vec<Candle> = (0..40).map(|i| candle(i, true)).collect();
    let mut strategy = MeanReversion::new(&Vec::new());
    let result = run_backtest(&candles, &mut strategy, &bt_config(), &risk_config(), &portfolio_config())
        .unwrap();
    assert_eq!(result.trades.len(), 0);
    assert!(result.equity_curve.is_empty());
    assert_eq!(result.metrics.total_trades, 0);
    assert_eq!(result.params_used.len(), 2);
}

#[test]
fn backtest_curves_align() {
    let candles: Vec<Candle> = (0..120).map(|i| candle(i, i % 40 < 20)).collect();
    let mut strategy = TrendFollowing::new(&Vec::new());
    let result = run_backtest(&candles, &mut strategy, &bt_config(), &risk_config(), &portfolio_config())
        .unwrap();
    assert_eq!(result.equity_curve.len(), result.drawdown_curve.len());
    assert_eq!(result.equity_curve.len(), 120 - 51);
    for (e, dd) in result.equity_curve.iter().zip(result.drawdown_curve.iter()) {
        assert_eq!(e.0, dd.0);
        assert!(!dd.1.lt(&d(0, 0)));
    }
    assert_eq!(strategy.name(), "trend_following");
}

#[test]
fn paper_exchange_fills_immediately() {
    let mut exchange = PaperExchange::new(d(100000, 0), d(5, 0), d(10, 0));
    exchange.set_price("BTCUSDT", d(50000, 0));
    let request = OrderRequest {
        client_order_id: "ot_test".to_string(),
        symbol: "BTCUSDT".to_string(),
        market_type: MarketType::Spot,
        side: Side::Buy,
        order_type: OrderType::Market,
        quantity: d(1, 1),
        price: Some(d(50000, 0)),
        stop_price: None,
        time_in_force: None,
        reduce_only: false,
        strategy_name: "test".to_string(),
        reason: OrderReason {
            strategy: "test".to_string(),
            signal_type: "long".to_string(),
            confidence: d(7, 1),
            description: "test".to_string(),
        },
        created_at_ms: 0,
    };
    let result = exchange.submit_order(&request, 0);
    assert!(result.is_some());
    let order = result.unwrap();
    assert_eq!(order.status, OrderStatus::Filled);
    assert_eq!(order.filled_quantity, d(1, 1));
    assert!(order.average_fill_price.unwrap().gt(&d(50000, 0)));
    assert!(order.commission.gt(&d(0, 0)));
}

#[test]
fn risk_engine_blocks_excessive_orders() {
    let core = TradingCore::new(risk_config(), portfolio_config(), d(10, 0));
    assert_eq!(core.risk_engine.current_equity(), d(100000, 0));
}

#[test]
fn feature_computation_with_real_data() {
    let candles: Vec<Candle> = (0..60).map(|i| candle(i, true)).collect();
    let features = compute_features(&candles);
    assert!(features.is_some());
    let f = features.unwrap();
    assert!(f.sma_20.is_some());
    assert!(f.sma_50.is_some());
    assert!(f.rsi_14.is_some());
    assert!(f.macd.is_some());
    assert!(f.atr_14.is_some());
    assert!(f.bb_upper.is_some());
}

#[test]
fn candle_buffer_behavior() {
    let mut buf = CandleBuffer::new(10);
    for i in 0..15 {
        buf.push(candle(i, true));
    }
    assert_eq!(buf.len(), 10);
    let latest = buf.latest().unwrap();
    assert_eq!(latest.close, d(50000 + 14 * 10, 0));
    let closes = buf.closes(5);
    assert_eq!(closes.len(), 5);
}

#[test]
fn regime_detection_works() {
    let features = opentrade::features::FeatureRow {
        timestamp_ms: 0,
        close: d(50000, 0),
        return_1: Some(d(5, 1)),
        return_5: Some(d(2, 0)),
        log_return_1: Some(d(5, 3)),
        sma_20: Some(d(49500, 0)),
        sma_50: Some(d(48000, 0)),
        ema_12: Some(d(49800, 0)),
        ema_26: Some(d(49200, 0)),
        macd: Some(d(600, 0)),
        rsi_14: Some(d(65, 0)),
        atr_14: Some(d(500, 0)),
        bb_upper: Some(d(51000, 0)),
        bb_middle: Some(d(49500, 0)),
        bb_lower: Some(d(48000, 0)),
        realized_vol_20: Some(d(25, 0)),
        bb_width: Some(d(6, 2)),
        price_vs_sma20: Some(d(1, 0)),
        price_vs_sma50: Some(d(42, 1)),
        trend_strength: Some(d(31, 1)),
        volume_sma_20: Some(d(1000, 0)),
        volume_ratio: Some(d(12, 1)),
        macd_signal_line: None,
        macd_histogram: None,
        funding_rate: None,
    };
    let regime = Regime::detect(&features);
    assert_eq!(regime, Regime::TrendingUp);
    assert!(regime.favors_trend());
    assert!(!regime.favors_mean_reversion());
}

#[test]
fn backtest_curve_stamps_and_drawdown() {
    let candles: Vec<Candle> = (0..200).map(|i| candle(i, i % 60 < 30)).collect();
    let mut strategy = TrendFollowing::new(&Vec::new());
    let result = run_backtest(&candles, &mut strategy, &bt_config(), &risk_config(), &portfolio_config())
        .unwrap();
    assert_eq!(result.equity_curve.len(), 149);
    assert_eq!(result.drawdown_curve.len(), 149);
    let mut peak = bt_config().initial_capital;
    for k in 0..149 {
        assert_eq!(result.equity_curve[k].0, candles[51 + k].close_time_ms);
        assert_eq!(result.drawdown_curve[k].0, candles[51 + k].close_time_ms);
        let mark = result.equity_curve[k].1;
        if mark.gt(&peak) {
            peak = mark;
        }
        let expected = peak.sub(mark).unwrap().div(peak).unwrap().mul(d(100, 0)).unwrap();
        assert_eq!(result.drawdown_curve[k].1, expected);
        assert!(!result.drawdown_curve[k].1.lt(&d(0, 0)));
    }
}

#[test]
fn backtest_commission_and_cash_totals() {
    let candles: Vec<Candle> = (0..200).map(|i| candle(i, i % 60 < 30)).collect();
    let mut strategy = TrendFollowing::new(&Vec::new());
    let result = run_backtest(&candles, &mut strategy, &bt_config(), &risk_config(), &portfolio_config())
        .unwrap();
    let mut commission = d(0, 0);
    let mut cash = bt_config().initial_capital;
    for t in result.trades.iter() {
        assert_eq!(t.commission_asset, "USDT");
        assert_eq!(t.strategy_name, "trend_following");
        commission = commission.add(t.commission).unwrap();
        cash = match t.realized_pnl {
            Some(p) => cash.add(p).unwrap(),
            None => cash.sub(t.commission).unwrap(),
        };
    }
    assert_eq!(result.metrics.total_trades, result.trades.len());
    assert_eq!(result.metrics.total_commission, commission);
    assert_eq!(result.metrics.total_return, cash.sub(bt_config().initial_capital).unwrap());
}

#[test]
fn backtest_exactly_51_candles_replays_nothing() {
    let candles: Vec<Candle> = (0..51).map(|i| candle(i, true)).collect();
    let mut strategy = TrendFollowing::new(&Vec::new());
    let result = run_backtest(&candles, &mut strategy, &bt_config(), &risk_config(), &portfolio_config())
        .unwrap();
    assert!(result.trades.is_empty());
    assert!(result.equity_curve.is_empty());
    assert!(result.drawdown_curve.is_empty());
    assert_eq!(result.metrics.total_trades, 0);
    assert_eq!(result.metrics.total_commission, d(0, 0));
}

#[test]
fn backtest_has_no_lookahead() {
    let candles: Vec<Candle> = (0..200).map(|i| candle(i, i % 60 < 30)).collect();
    let mut long_run = TrendFollowing::new(&Vec::new());
    let full = run_backtest(&candles, &mut long_run, &bt_config(), &risk_config(), &portfolio_config())
        .unwrap();
    let mut short_run = TrendFollowing::new(&Vec::new());
    let prefix = run_backtest(&candles[..150], &mut short_run, &bt_config(), &risk_config(), &portfolio_config())
        .unwrap();
    assert_eq!(prefix.equity_curve.len(), 99);
    for k in 0..99 {
        assert_eq!(prefix.equity_curve[k], full.equity_curve[k]);
        assert_eq!(prefix.drawdown_curve[k], full.drawdown_curve[k]);
    }
}

#[test]
fn candle_buffer_keeps_last_in_order() {
    let mut buf = CandleBuffer::new(3);
    for i in 0..5 {
        buf.push(candle(i, true));
    }
    let held = buf.iter();
    assert_eq!(held.len(), 3);
    for (j, c) in held.iter().enumerate() {
        assert_eq!(c.close, d(50000 + (2 + j as i64) * 10, 0));
    }
}

#[test]
fn zero_product_has_scale_zero() {
    let p = d(0, 2).mul(d(5, 0)).unwrap();
    assert_eq!(p.mantissa(), 0);
    assert_eq!(p.scale(), 0);
    let q = d(0, 3).div(d(7, 1)).unwrap();
    assert_eq!(q.scale(), 0);
    let r = d(15, 1).mul(d(3, 2)).unwrap();
    assert_eq!(r.mantissa(), 45);
    assert_eq!(r.scale(), 3);
}
