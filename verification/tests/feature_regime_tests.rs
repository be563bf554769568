use opentrade::decimal::Dec;
use opentrade::features::{compute_features, FeatureRow};
use opentrade::meta::MarketRegime;
use opentrade::regime::{Regime, RegimeTracker};
use opentrade::types::{Candle, MarketType, Timeframe};

fn d(m: i64, s: u32) -> Dec {
    Dec::new(m, s)
}

fn make_candles(n: usize, base: i64) -> Vec<Candle> {
    (0..n)
        .map(|i| {
            let price = Dec::from_i64(base + i as i64);
            let t = 1_700_000_000_000i64 + 60_000 * i as i64;
            Candle {
                symbol: "BTCUSDT".to_string(),
                market_type: MarketType::Spot,
                timeframe: Timeframe::M1,
                open_time_ms: t,
                close_time_ms: t + 60_000,
                open: price,
                high: price.add(d(5, 0)).unwrap(),
                low: price.sub(d(5, 0)).unwrap(),
                close: price,
                volume: d(100, 0),
                quote_volume: price.mul(d(100, 0)).unwrap(),
                trades: 50,
            }
        })
        .collect()
}

fn base_features() -> FeatureRow {
    FeatureRow {
        timestamp_ms: 0,
        close: d(50000, 0),
        return_1: Some(d(5, 1)),
        return_5: Some(d(2, 0)),
        log_return_1: Some(d(5, 3)),
        sma_20: Some(d(49500, 0)),
        sma_50: Some(d(48000, 0)),
        ema_12: Some(d(49800, 0)),
        ema_26: Some(d(49200, 0)),
        macd: Some(d(600, 0)),
        macd_signal_line: None,
        macd_histogram: None,
        rsi_14: Some(d(65, 0)),
        atr_14: Some(d(500, 0)),
        bb_upper: Some(d(51000, 0)),
        bb_middle: Some(d(49500, 0)),
        bb_lower: Some(d(48000, 0)),
        realized_vol_20: Some(d(25, 0)),
        bb_width: Some(d(6, 2)),
        price_vs_sma20: Some(d(1, 0)),
        price_vs_sma50: Some(d(42, 1)),
        trend_strength: Some(d(31, 1)),
        volume_sma_20: Some(d(1000, 0)),
        volume_ratio: Some(d(12, 1)),
        funding_rate: None,
    }
}

#[test]
fn compute_features_needs_enough_data() {
    let candles = make_candles(30, 50000);
    assert!(compute_features(&candles).is_none());
}

#[test]
fn compute_features_with_enough_data() {
    let candles = make_candles(60, 50000);
    let row = compute_features(&candles);
    assert!(row.is_some());
    let row = row.unwrap();
    assert!(row.sma_20.is_some());
    assert!(row.sma_50.is_some());
    assert!(row.rsi_14.is_some());
    assert!(row.macd.is_some());
}

#[test]
fn features_close_is_last_close() {
    let candles = make_candles(60, 100);
    let row = compute_features(&candles).unwrap();
    assert_eq!(row.close, d(159, 0));
    assert_eq!(row.timestamp_ms, candles[59].close_time_ms);
    assert_eq!(row.return_1.unwrap().gt(&d(0, 0)), true);
}

#[test]
fn detect_trending_up() {
    let f = base_features();
    assert_eq!(Regime::detect(&f), Regime::TrendingUp);
}

#[test]
fn detect_high_volatility() {
    let mut f = base_features();
    f.realized_vol_20 = Some(d(80, 0));
    assert_eq!(Regime::detect(&f), Regime::HighVolatility);
}

#[test]
fn detect_ranging() {
    let mut f = base_features();
    f.trend_strength = Some(d(1, 1));
    f.rsi_14 = Some(d(50, 0));
    f.realized_vol_20 = Some(d(25, 0));
    f.bb_width = Some(d(4, 2));
    assert_eq!(Regime::detect(&f), Regime::Ranging);
}

#[test]
fn regime_tracker_stability() {
    let mut tracker = RegimeTracker::new(100);
    let f = base_features();
    for i in 0..10 {
        tracker.update(i, &f);
    }
    assert_eq!(tracker.stability(10), d(1, 0));
}

#[test]
fn detect_trending_down_and_transitional() {
    let mut f = base_features();
    f.trend_strength = Some(d(-3, 0));
    f.rsi_14 = Some(d(40, 0));
    assert_eq!(Regime::detect(&f), Regime::TrendingDown);
    f.trend_strength = Some(d(1, 0));
    assert_eq!(Regime::detect(&f), Regime::Transitional);
}

#[test]
fn detect_low_volatility() {
    let mut f = base_features();
    f.bb_width = Some(d(1, 2));
    f.realized_vol_20 = Some(d(10, 0));
    assert_eq!(Regime::detect(&f), Regime::LowVolatility);
}

#[test]
fn regime_predicates() {
    assert!(Regime::TrendingUp.favors_trend());
    assert!(!Regime::Ranging.favors_trend());
    assert!(Regime::LowVolatility.favors_mean_reversion());
    assert!(Regime::Transitional.reduce_exposure());
    assert!(!Regime::TrendingDown.reduce_exposure());
}

#[test]
fn tracker_keeps_at_most_max_history() {
    let mut tracker = RegimeTracker::new(3);
    let f = base_features();
    let mut hv = base_features();
    hv.realized_vol_20 = Some(d(90, 0));
    for i in 0..5 {
        tracker.update(i, &f);
    }
    tracker.update(5, &hv);
    assert_eq!(tracker.current(), Some(Regime::HighVolatility));
    // one of the last three is high volatility
    assert_eq!(tracker.stability(10), Dec::from_u32(1).div(Dec::from_u32(3)).unwrap());
    assert_eq!(RegimeTracker::new(5).stability(5), d(0, 0));
    assert_eq!(RegimeTracker::new(5).current(), None);
}

#[test]
fn market_regime_detection() {
    let f = base_features();
    assert_eq!(MarketRegime::detect(&f), MarketRegime::Trending);
    let mut g = base_features();
    g.realized_vol_20 = Some(d(61, 0));
    assert_eq!(MarketRegime::detect(&g), MarketRegime::HighVolatility);
    let mut h = base_features();
    h.trend_strength = Some(d(-5, 1));
    h.bb_width = Some(d(1, 2));
    assert_eq!(MarketRegime::detect(&h), MarketRegime::LowVolatility);
    h.bb_width = Some(d(3, 2));
    assert_eq!(MarketRegime::detect(&h), MarketRegime::Ranging);
    assert_eq!(MarketRegime::Ranging.key(), "ranging");
    assert_eq!(MarketRegime::HighVolatility.debug_name(), "HighVolatility");
}
