use opentrade::anti_consensus::AntiConsensus;
use opentrade::breakout::Breakout;
use opentrade::cross_timeframe::CrossTimeframe;
use opentrade::config::ParamValue;
use opentrade::decimal::Dec;
use opentrade::features::FeatureRow;
use opentrade::funding_rate::FundingRateReversion;
use opentrade::imbalance::ImbalanceStrategy;
use opentrade::mean_reversion::MeanReversion;
use opentrade::meta::{consider, MarketRegime, MetaStrategy, RegimeWeights};
use opentrade::momentum::Momentum;
use opentrade::regime_transition::{RegimeState, RegimeTransition};
use opentrade::risk_signal::{RiskEvent, RiskEventType, RiskSignalStrategy};
use opentrade::strategy::{get_bool, get_dec, get_text, get_u64, Strategy, StrategyRegistry};
use opentrade::trend::TrendFollowing;
use opentrade::types::{Candle, MarketType, Position, PositionSide, SignalDirection, Timeframe};

fn d(m: i64, s: u32) -> Dec {
    Dec::new(m, s)
}

fn empty_row() -> FeatureRow {
    FeatureRow {
        timestamp_ms: 0,
        close: d(50000, 0),
        return_1: None,
        return_5: None,
        log_return_1: None,
        sma_20: None,
        sma_50: None,
        ema_12: None,
        ema_26: None,
        macd: None,
        macd_signal_line: None,
        macd_histogram: None,
        rsi_14: None,
        atr_14: None,
        bb_upper: None,
        bb_middle: None,
        bb_lower: None,
        realized_vol_20: None,
        bb_width: None,
        price_vs_sma20: None,
        price_vs_sma50: None,
        trend_strength: None,
        volume_sma_20: None,
        volume_ratio: None,
        funding_rate: None,
    }
}

fn candle(close: Dec) -> Candle {
    Candle {
        symbol: "BTCUSDT".to_string(),
        market_type: MarketType::Spot,
        timeframe: Timeframe::H1,
        open_time_ms: 0,
        close_time_ms: 3_600_000,
        open: close,
        high: close.add(d(10, 0)).unwrap(),
        low: close.sub(d(10, 0)).unwrap(),
        close,
        volume: d(100, 0),
        quote_volume: d(0, 0),
        trades: 1,
    }
}

fn long_position(strategy: &str) -> Position {
    Position {
        symbol: "BTCUSDT".to_string(),
        market_type: MarketType::Spot,
        side: PositionSide::Long,
        quantity: d(1, 0),
        entry_price: d(100, 0),
        current_price: d(100, 0),
        unrealized_pnl: d(0, 0),
        realized_pnl: d(0, 0),
        total_commission: d(0, 0),
        leverage: d(1, 0),
        liquidation_price: None,
        opened_at_ms: 0,
        last_update_ms: 0,
        strategy_name: strategy.to_string(),
    }
}

#[test]
fn trend_default_construction() {
    let s = TrendFollowing::new(&Vec::new());
    assert_eq!(s.name(), "trend_following");
    assert_eq!(s.fast_period, 20);
    assert_eq!(s.slow_period, 50);
}

#[test]
fn confidence_macd_histogram_bonus() {
    let s = TrendFollowing::new(&Vec::new());
    let mut base = empty_row();
    base.macd_histogram = Some(d(50, 0));
    let conf_confirming = s.compute_confidence(&base, true);
    let mut opposing = base;
    opposing.macd_histogram = Some(d(-50, 0));
    let conf_opposing = s.compute_confidence(&opposing, true);
    assert!(conf_confirming.gt(&conf_opposing));
}

#[test]
fn confidence_base_score_is_lower() {
    let s = TrendFollowing::new(&Vec::new());
    assert_eq!(s.compute_confidence(&empty_row(), true), d(40, 2));
}

#[test]
fn confidence_full_house_is_capped() {
    let s = TrendFollowing::new(&Vec::new());
    let mut f = empty_row();
    f.rsi_14 = Some(d(65, 0));
    f.trend_strength = Some(d(3, 0));
    f.volume_ratio = Some(d(2, 0));
    f.macd_histogram = Some(d(1, 0));
    f.bb_width = Some(d(1, 2));
    // 0.40 + 0.10 + 0.15 + 0.10 + 0.15 + 0.05 = 0.95
    assert_eq!(s.compute_confidence(&f, true), d(95, 2));
    // short: rsi 65 > 30 confirms (+0.10), -3 trend is not above 0.5, histogram opposes (-0.10)
    assert_eq!(s.compute_confidence(&f, false), d(55, 2));
}

#[test]
fn trend_params_are_read() {
    let params = vec![
        ("name".to_string(), ParamValue::Text("tf".to_string())),
        ("fast_period".to_string(), ParamValue::UInt(10)),
        ("rsi_overbought".to_string(), ParamValue::Text("75.5".to_string())),
        ("allow_short".to_string(), ParamValue::Flag(true)),
        ("cooldown".to_string(), ParamValue::Text("x".to_string())),
    ];
    let s = TrendFollowing::new(&params);
    assert_eq!(s.name(), "tf");
    assert_eq!(s.fast_period, 10);
    assert_eq!(s.slow_period, 50);
    assert_eq!(s.rsi_overbought, d(755, 1));
    assert!(s.allow_short);
    assert_eq!(s.cooldown, 5);
    assert_eq!(get_u64(&params, "fast_period", 1), 10);
    assert_eq!(get_dec(&params, "missing", d(7, 0)), d(7, 0));
    assert!(get_bool(&params, "allow_short", false));
    assert_eq!(get_text(&params, "name", "x"), "tf");
}

fn trend_row() -> FeatureRow {
    let mut f = empty_row();
    f.sma_20 = Some(d(105, 0));
    f.sma_50 = Some(d(100, 0));
    f.rsi_14 = Some(d(60, 0));
    f.atr_14 = Some(d(2, 0));
    f
}

#[test]
fn trend_long_entry_after_cooldown() {
    let mut s = TrendFollowing::new(&Vec::new());
    let c = candle(d(110, 0));
    for _ in 0..4 {
        assert!(s.on_bar(&c, &trend_row(), None).is_none());
    }
    let sig = s.on_bar(&c, &trend_row(), None).unwrap();
    assert_eq!(sig.direction, SignalDirection::Long);
    assert_eq!(sig.stop_loss, Some(d(106, 0)));
    assert_eq!(sig.take_profit, Some(d(116, 0)));
    assert_eq!(sig.time_stop_bars, Some(50));
    assert_eq!(sig.entry_price, Some(d(110, 0)));
    assert_eq!(sig.metadata.regime.as_deref(), Some("trending_up"));
    assert_eq!(s.bars_since_signal, 0);
}

#[test]
fn trend_exit_on_reversal() {
    let mut s = TrendFollowing::new(&vec![("cooldown".to_string(), ParamValue::UInt(0))]);
    let mut f = trend_row();
    f.sma_20 = Some(d(95, 0));
    let pos = long_position("trend_following");
    let sig = s.on_bar(&candle(d(90, 0)), &f, Some(&pos)).unwrap();
    assert_eq!(sig.direction, SignalDirection::Flat);
    assert_eq!(sig.confidence, d(7, 1));
    assert_eq!(sig.strength, d(8, 1));
}

#[test]
fn mean_reversion_long_entry() {
    let mut s = MeanReversion::new(&vec![("cooldown".to_string(), ParamValue::UInt(1))]);
    let mut f = empty_row();
    f.rsi_14 = Some(d(15, 0));
    f.bb_upper = Some(d(120, 0));
    f.bb_middle = Some(d(110, 0));
    f.bb_lower = Some(d(100, 0));
    f.atr_14 = Some(d(4, 0));
    let sig = s.on_bar(&candle(d(99, 0)), &f, None).unwrap();
    assert_eq!(sig.direction, SignalDirection::Long);
    // 0.5 + (25 - 15) / 100 * 0.3 = 0.53
    assert_eq!(sig.confidence, d(53, 2));
    assert_eq!(sig.stop_loss, Some(d(93, 0)));
    assert_eq!(sig.take_profit, Some(d(110, 0)));
    assert_eq!(sig.metadata.uncertainty_score, Some(d(47, 2)));
}

#[test]
fn mean_reversion_exit_at_middle() {
    let mut s = MeanReversion::new(&vec![("cooldown".to_string(), ParamValue::UInt(0))]);
    let mut f = empty_row();
    f.rsi_14 = Some(d(50, 0));
    f.bb_upper = Some(d(120, 0));
    f.bb_middle = Some(d(110, 0));
    f.bb_lower = Some(d(100, 0));
    f.atr_14 = Some(d(4, 0));
    let pos = long_position("mean_reversion");
    let sig = s.on_bar(&candle(d(111, 0)), &f, Some(&pos)).unwrap();
    assert_eq!(sig.direction, SignalDirection::Flat);
    assert!(s.on_bar(&candle(d(105, 0)), &f, Some(&pos)).is_none());
}

#[test]
fn risk_signal_default_construction() {
    let s = RiskSignalStrategy::new(&Vec::new());
    assert_eq!(s.name(), "risk_signal");
}

#[test]
fn vol_spike_detection() {
    let mut s = RiskSignalStrategy::new(&Vec::new());
    for _ in 0..10 {
        s.vol_history.push(d(25, 0));
    }
    assert!(!s.detect_vol_spike(d(30, 0)));
    assert!(s.detect_vol_spike(d(75, 0)));
}

#[test]
fn risk_events_counted_in_window() {
    let mut s = RiskSignalStrategy::new(&Vec::new());
    for i in 0..3 {
        s.report_event(RiskEvent {
            event_type: RiskEventType::StaleData,
            severity: d(5, 1),
            timestamp_ms: i * 100_000,
        });
    }
    // lookback 5 bars = 300000 ms: events after 200000 - 300000 < 0 all count
    assert_eq!(s.recent_event_count(200_000), 3);
    assert_eq!(s.recent_event_count(400_000), 1);
    for _ in 0..200 {
        s.report_event(RiskEvent {
            event_type: RiskEventType::ConnectivityIssue,
            severity: d(1, 0),
            timestamp_ms: 0,
        });
    }
    assert_eq!(s.risk_events.len(), 100);
}

#[test]
fn risk_signal_closes_position_on_events() {
    let mut s = RiskSignalStrategy::new(&vec![("cooldown".to_string(), ParamValue::UInt(0))]);
    for _ in 0..2 {
        s.report_event(RiskEvent {
            event_type: RiskEventType::OrderRejections,
            severity: d(5, 1),
            timestamp_ms: 1_000,
        });
    }
    let mut f = empty_row();
    f.atr_14 = Some(d(1, 0));
    f.timestamp_ms = 2_000;
    let pos = long_position("risk_signal");
    let sig = s.on_bar(&candle(d(100, 0)), &f, Some(&pos)).unwrap();
    assert_eq!(sig.direction, SignalDirection::Flat);
    assert_eq!(sig.metadata.risk_overrides, vec!["2 risk events detected".to_string()]);
}

#[test]
fn breakout_long_on_new_high() {
    let mut s = Breakout::new(&vec![
        ("lookback".to_string(), ParamValue::UInt(3)),
        ("cooldown".to_string(), ParamValue::UInt(0)),
    ]);
    let mut f = empty_row();
    f.atr_14 = Some(d(2, 0));
    f.volume_ratio = Some(d(2, 0));
    for p in [100, 101, 102] {
        assert!(s.on_bar(&candle(d(p, 0)), &f, None).is_none());
    }
    // previous highs are 110, 111, 112; a close of 120 breaks out
    let sig = s.on_bar(&candle(d(120, 0)), &f, None).unwrap();
    assert_eq!(sig.direction, SignalDirection::Long);
    assert_eq!(sig.confidence, d(7, 1));
    assert_eq!(sig.stop_loss, Some(d(116, 0)));
    assert_eq!(sig.take_profit, Some(d(126, 0)));
    assert_eq!(s.recent_highs.len(), 4);
}

#[test]
fn momentum_long_confidence() {
    let mut s = Momentum::new(&vec![("cooldown".to_string(), ParamValue::UInt(0))]);
    let mut f = empty_row();
    f.return_5 = Some(d(4, 0));
    f.rsi_14 = Some(d(60, 0));
    f.atr_14 = Some(d(1, 0));
    let sig = s.on_bar(&candle(d(100, 0)), &f, None).unwrap();
    // 0.6 + min(4 - 2, 5) / 50 = 0.64
    assert_eq!(sig.confidence, d(64, 2));
    assert_eq!(sig.take_profit, Some(d(104, 0)));
    assert_eq!(sig.stop_loss, Some(d(975, 1)));
}

#[test]
fn meta_weighting() {
    let mut w = RegimeWeights::new(2).unwrap();
    assert_eq!(w.weights_for(MarketRegime::Trending).clone(), vec![d(5, 1), d(5, 1)]);
    w.set_regime_weights("trending", vec![d(1, 0), d(0, 0)]);
    w.set_regime_weights("ranging", vec![d(1, 0)]);
    assert_eq!(w.weights_for(MarketRegime::Trending).clone(), vec![d(1, 0), d(0, 0)]);
    assert_eq!(w.weights_for(MarketRegime::Ranging).clone(), vec![d(5, 1), d(5, 1)]);
    let mut s = TrendFollowing::new(&vec![("cooldown".to_string(), ParamValue::UInt(0))]);
    let sig = s.on_bar(&candle(d(110, 0)), &trend_row(), None).unwrap();
    let best = consider(None, sig, d(5, 1)).unwrap().unwrap();
    assert_eq!(best.1, best.0.confidence.mul(d(5, 1)).unwrap());
}

#[test]
fn funding_rate_default_construction() {
    let s = FundingRateReversion::new(&Vec::new());
    assert_eq!(s.name(), "funding_rate_reversion");
}

#[test]
fn funding_rate_short_on_extreme_positive_funding() {
    let mut s = FundingRateReversion::new(&vec![("cooldown".to_string(), ParamValue::UInt(0))]);
    s.set_funding_rate(d(2, 3));
    let mut f = empty_row();
    f.rsi_14 = Some(d(60, 0));
    f.atr_14 = Some(d(5, 0));
    let sig = s.on_bar(&candle(d(100, 0)), &f, None).unwrap();
    assert_eq!(sig.direction, SignalDirection::Short);
    assert_eq!(sig.confidence, d(8, 1));
    assert_eq!(sig.strength, d(1, 0));
    assert_eq!(sig.stop_loss, Some(d(110, 0)));
    assert_eq!(sig.take_profit, Some(d(8750, 2)));
    assert_eq!(sig.time_stop_bars, Some(24));
    assert_eq!(sig.metadata.regime.as_deref(), Some("funding_extreme_positive"));
}

#[test]
fn funding_rate_quiet_below_threshold() {
    let mut s = FundingRateReversion::new(&vec![("cooldown".to_string(), ParamValue::UInt(0))]);
    s.set_funding_rate(d(1, 4));
    let mut f = empty_row();
    f.rsi_14 = Some(d(60, 0));
    f.atr_14 = Some(d(5, 0));
    assert!(s.on_bar(&candle(d(100, 0)), &f, None).is_none());
}

#[test]
fn persistent_imbalance_detection() {
    let mut s = ImbalanceStrategy::new(&Vec::new());
    s.set_imbalance(d(3, 1));
    s.set_imbalance(d(35, 2));
    s.set_imbalance(d(4, 1));
    assert_eq!(s.persistent_imbalance(), Some(SignalDirection::Long));
}

#[test]
fn no_imbalance_when_mixed() {
    let mut s = ImbalanceStrategy::new(&Vec::new());
    s.set_imbalance(d(3, 1));
    s.set_imbalance(d(-1, 1));
    s.set_imbalance(d(2, 1));
    assert!(s.persistent_imbalance().is_none());
}

#[test]
fn imbalance_history_keeps_last_twenty() {
    let mut s = ImbalanceStrategy::new(&Vec::new());
    for i in 0..25 {
        s.set_imbalance(d(i, 2));
    }
    assert_eq!(s.imbalance_history.len(), 20);
    assert_eq!(s.imbalance_history[0], d(5, 2));
    assert_eq!(s.current_imbalance, Some(d(24, 2)));
}

#[test]
fn imbalance_short_entry_with_volume() {
    let mut s = ImbalanceStrategy::new(&vec![("cooldown".to_string(), ParamValue::UInt(0))]);
    for _ in 0..3 {
        s.set_imbalance(d(-5, 1));
    }
    let mut f = empty_row();
    f.atr_14 = Some(d(2, 0));
    f.volume_ratio = Some(d(15, 1));
    let sig = s.on_bar(&candle(d(100, 0)), &f, None).unwrap();
    assert_eq!(sig.direction, SignalDirection::Short);
    // 0.5 + 0.5 * 0.3 = 0.65
    assert_eq!(sig.confidence, d(65, 2));
    assert_eq!(sig.stop_loss, Some(d(103, 0)));
    assert_eq!(sig.take_profit, Some(d(96, 0)));
}

#[test]
fn cross_timeframe_default_construction() {
    let s = CrossTimeframe::new(&Vec::new());
    assert_eq!(s.name(), "cross_timeframe");
}

#[test]
fn no_signal_without_higher_tf() {
    let s = CrossTimeframe::new(&Vec::new());
    let mut features = empty_row();
    features.rsi_14 = Some(d(30, 0));
    features.trend_strength = Some(d(1, 0));
    assert!(s.detect_disagreement(&features).is_none());
}

#[test]
fn cross_timeframe_buys_the_dip() {
    let mut s = CrossTimeframe::new(&vec![("cooldown".to_string(), ParamValue::UInt(0))]);
    let mut higher = empty_row();
    higher.rsi_14 = Some(d(60, 0));
    higher.trend_strength = Some(d(2, 0));
    s.set_higher_tf_features(&higher);
    let mut f = empty_row();
    f.rsi_14 = Some(d(35, 0));
    f.atr_14 = Some(d(1, 0));
    assert_eq!(s.detect_disagreement(&f), Some((SignalDirection::Long, d(25, 0))));
    let sig = s.on_bar(&candle(d(100, 0)), &f, None).unwrap();
    assert_eq!(sig.direction, SignalDirection::Long);
    // min(0.5 + 25 / 100, 0.8) = 0.75
    assert_eq!(sig.confidence, d(75, 2));
    assert_eq!(sig.strength, d(8, 1));
    assert_eq!(sig.stop_loss, Some(d(98, 0)));
    assert_eq!(sig.take_profit, Some(d(103, 0)));
    assert_eq!(sig.metadata.uncertainty_score, Some(d(25, 2)));
}

#[test]
fn cross_timeframe_small_gap_is_ignored() {
    let mut s = CrossTimeframe::new(&Vec::new());
    let mut higher = empty_row();
    higher.rsi_14 = Some(d(45, 0));
    higher.trend_strength = Some(d(2, 0));
    s.set_higher_tf_features(&higher);
    let mut f = empty_row();
    f.rsi_14 = Some(d(35, 0));
    assert!(s.detect_disagreement(&f).is_none());
}

#[test]
fn regime_transition_default_construction() {
    let s = RegimeTransition::new(&Vec::new());
    assert_eq!(s.name(), "regime_transition");
    assert_eq!(s.stability(), d(1, 0));
}

#[test]
fn regime_state_classification() {
    let mut f = empty_row();
    assert_eq!(RegimeState::from_features(&f), RegimeState::Ranging);
    f.trend_strength = Some(d(3, 0));
    assert_eq!(RegimeState::from_features(&f), RegimeState::TrendingUp);
    f.realized_vol_20 = Some(d(70, 0));
    assert_eq!(RegimeState::from_features(&f), RegimeState::HighVol);
    f.realized_vol_20 = Some(d(10, 0));
    f.bb_width = Some(d(1, 2));
    assert_eq!(RegimeState::from_features(&f), RegimeState::LowVol);
}

#[test]
fn regime_transition_enters_on_unstable_regime() {
    let mut s = RegimeTransition::new(&vec![
        ("cooldown".to_string(), ParamValue::UInt(0)),
        ("stability_lookback".to_string(), ParamValue::UInt(4)),
    ]);
    let mut ranging = empty_row();
    ranging.trend_strength = Some(d(0, 0));
    for _ in 0..3 {
        assert!(s.on_bar(&candle(d(100, 0)), &ranging, None).is_none());
    }
    let mut f = empty_row();
    f.trend_strength = Some(d(3, 0));
    f.rsi_14 = Some(d(60, 0));
    f.atr_14 = Some(d(2, 0));
    let sig = s.on_bar(&candle(d(100, 0)), &f, None).unwrap();
    // one of the last four bars trends up: stability 0.25
    assert_eq!(sig.metadata.uncertainty_score, Some(d(25, 2)));
    assert_eq!(sig.direction, SignalDirection::Long);
    assert_eq!(sig.strength, d(75, 2));
    // min(0.5 + 0.75 * 0.3, 0.85) = 0.725
    assert_eq!(sig.confidence, d(725, 3));
    assert_eq!(sig.stop_loss, Some(d(95, 0)));
    assert_eq!(sig.take_profit, Some(d(107, 0)));
    assert_eq!(sig.metadata.regime.as_deref(), Some("transitional"));
}

#[test]
fn no_consensus_when_empty() {
    let s = AntiConsensus::new(&Vec::new());
    assert!(s.detect_consensus().is_none());
}

#[test]
fn detects_full_consensus() {
    let mut s = AntiConsensus::new(&Vec::new());
    s.current_bar = 1;
    s.record_signal("trend", SignalDirection::Long, d(8, 1));
    s.record_signal("breakout", SignalDirection::Long, d(7, 1));
    s.record_signal("momentum", SignalDirection::Long, d(75, 2));
    let consensus = s.detect_consensus();
    assert!(consensus.is_some());
    let (dir, count) = consensus.unwrap();
    assert_eq!(dir, SignalDirection::Long);
    assert_eq!(count, 3);
}

#[test]
fn no_consensus_when_split() {
    let mut s = AntiConsensus::new(&Vec::new());
    s.current_bar = 1;
    s.record_signal("trend", SignalDirection::Long, d(8, 1));
    s.record_signal("breakout", SignalDirection::Short, d(7, 1));
    s.record_signal("momentum", SignalDirection::Long, d(75, 2));
    assert!(s.detect_consensus().is_none());
}

#[test]
fn stale_signals_are_dropped() {
    let mut s = AntiConsensus::new(&Vec::new());
    s.current_bar = 1;
    s.record_signal("trend", SignalDirection::Long, d(8, 1));
    s.current_bar = 5;
    s.record_signal("breakout", SignalDirection::Short, d(7, 1));
    assert_eq!(s.recent_signals.len(), 1);
    assert_eq!(s.recent_signals[0].strategy, "breakout");
}

#[test]
fn anti_consensus_fades_crowded_long() {
    let mut s = AntiConsensus::new(&vec![("cooldown".to_string(), ParamValue::UInt(0))]);
    // signals recorded for the bar that on_bar is about to count
    s.current_bar = 1;
    s.record_signal("trend", SignalDirection::Long, d(8, 1));
    s.record_signal("breakout", SignalDirection::Long, d(7, 1));
    s.record_signal("momentum", SignalDirection::Long, d(75, 2));
    s.current_bar = 0;
    let mut f = empty_row();
    f.rsi_14 = Some(d(70, 0));
    f.atr_14 = Some(d(2, 0));
    let sig = s.on_bar(&candle(d(100, 0)), &f, None).unwrap();
    assert_eq!(sig.direction, SignalDirection::Short);
    // min(0.55 + 3 * 0.05, 0.75) = 0.70
    assert_eq!(sig.confidence, d(70, 2));
    assert_eq!(sig.strength, d(3, 1));
    assert_eq!(sig.stop_loss, Some(d(103, 0)));
    assert_eq!(sig.take_profit, Some(d(96, 0)));
    assert_eq!(sig.metadata.risk_overrides, vec!["Fading 3-strategy consensus".to_string()]);
}

fn named_trend(name: &str) -> TrendFollowing {
    TrendFollowing::new(&vec![
        ("name".to_string(), ParamValue::Text(name.to_string())),
        ("cooldown".to_string(), ParamValue::UInt(0)),
    ])
}

#[test]
fn registry_registers_and_replaces_by_name() {
    let mut reg = StrategyRegistry::new();
    reg.register(named_trend("a"));
    reg.register(named_trend("b"));
    assert_eq!(reg.names(), vec!["a", "b"]);
    assert!(reg.get("a").is_some());
    assert!(reg.get("c").is_none());
    let mut replacement = named_trend("a");
    replacement.fast_period = 5;
    reg.register(replacement);
    assert_eq!(reg.names(), vec!["a", "b"]);
    assert_eq!(reg.get("a").unwrap().fast_period, 5);
    reg.get_mut("b").unwrap().fast_period = 7;
    assert_eq!(reg.get("b").unwrap().fast_period, 7);
    assert!(reg.get_mut("c").is_none());
}

#[test]
fn meta_strategy_picks_weighted_signal_and_labels_regime() {
    let mut meta = MetaStrategy::new("meta".to_string(), vec![named_trend("a"), named_trend("b")]);
    assert_eq!(meta.name(), "meta");
    assert_eq!(meta.cooldown_bars(), 1);
    let f = trend_row();
    assert_eq!(MarketRegime::detect(&f), MarketRegime::Ranging);
    let sig = meta.on_bar(&candle(d(110, 0)), &f, None).unwrap();
    // equal weights: the first sub-strategy wins the tie
    assert_eq!(sig.strategy_name, "a");
    assert_eq!(sig.direction, SignalDirection::Long);
    assert_eq!(sig.metadata.regime.as_deref(), Some("Ranging"));
    meta.set_regime_weights("ranging", vec![d(0, 0), d(1, 0)]);
    let sig = meta.on_bar(&candle(d(110, 0)), &f, None).unwrap();
    assert_eq!(sig.strategy_name, "b");
    meta.set_regime_weights("ranging", vec![d(0, 0), d(0, 0)]);
    assert!(meta.on_bar(&candle(d(110, 0)), &f, None).is_none());
    match &meta.params()[0].1 {
        ParamValue::TextList(names) => assert_eq!(names, &vec!["a".to_string(), "b".to_string()]),
        _ => panic!("sub-strategy names expected"),
    }
}
