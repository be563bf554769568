use opentrade::errors::{ExchangeError, OtError};
use opentrade::decimal::Dec;
use opentrade::features::FeatureRow;
use opentrade::models::{DirectionProbs, EnsembleScorer, ModelRegistry, PredictionModel, ThresholdClassifier};

fn d(m: i64, s: u32) -> Dec {
    Dec::new(m, s)
}

fn row(rsi: Option<Dec>, trend: Option<Dec>) -> FeatureRow {
    FeatureRow {
        timestamp_ms: 0,
        close: d(50000, 0),
        return_1: Some(d(1, 2)),
        return_5: None,
        log_return_1: None,
        sma_20: None,
        sma_50: None,
        ema_12: None,
        ema_26: None,
        macd: None,
        macd_signal_line: None,
        macd_histogram: None,
        rsi_14: rsi,
        atr_14: None,
        bb_upper: None,
        bb_middle: None,
        bb_lower: None,
        realized_vol_20: Some(d(20, 0)),
        bb_width: None,
        price_vs_sma20: None,
        price_vs_sma50: None,
        trend_strength: trend,
        volume_sma_20: None,
        volume_ratio: None,
        funding_rate: None,
    }
}

#[test]
fn direction_probs_pick_strict_maximum() {
    let p = DirectionProbs { up: d(5, 1), down: d(3, 1), flat: d(2, 1) };
    assert_eq!(p.predicted_direction(), "up");
    assert_eq!(p.max_prob(), d(5, 1));
    let tie = DirectionProbs { up: d(4, 1), down: d(4, 1), flat: d(2, 1) };
    assert_eq!(tie.predicted_direction(), "flat");
}

#[test]
fn classifier_oversold_uptrend_favors_up() {
    let m = ThresholdClassifier::new();
    assert!(m.model_id().starts_with("threshold_"));
    assert_eq!(m.version(), "1.0.0");
    let p = m.predict(&row(Some(d(30, 0)), Some(d(1, 0)))).unwrap();
    assert_eq!(p.direction_probs.up, d(55, 2));
    assert_eq!(p.confidence, d(55, 2));
    assert_eq!(p.expected_return, Some(d(1, 2)));
    assert!(m.predict(&row(None, None)).is_none());
}

#[test]
fn registry_champion_and_all_predictions() {
    let mut reg = ModelRegistry::new();
    let a = ThresholdClassifier::new();
    let b = ThresholdClassifier::new();
    let a_id = a.model_id().to_string();
    reg.register(a);
    reg.register(b);
    let f = row(Some(d(50, 0)), None);
    assert!(reg.predict_champion(&f).is_none());
    reg.set_champion("missing");
    assert!(reg.predict_champion(&f).is_none());
    reg.set_champion(&a_id);
    let p = reg.predict_champion(&f).unwrap();
    assert_eq!(p.model_id, a_id);
    assert_eq!(reg.predict_all(&f).len(), 2);
    assert_eq!(reg.predict_all(&row(None, None)).len(), 0);
}

#[test]
fn ensemble_score_over_registry() {
    let mut reg = ModelRegistry::new();
    reg.register(ThresholdClassifier::new());
    reg.register(ThresholdClassifier::new());
    let scorer = EnsembleScorer::new(d(3, 1));
    let e = scorer.score(&reg, &row(Some(d(50, 0)), None)).unwrap();
    assert_eq!(e.direction, "flat");
    assert_eq!(e.num_models, 2);
    assert_eq!(e.avg_flat_prob, d(4, 1));
    assert_eq!(e.model_agreement, d(1, 0));
    assert!(e.meets_threshold);
    assert!(scorer.score(&reg, &row(None, None)).is_none());
}

#[test]
fn classifier_id_carries_a_simple_uuid() {
    let c = ThresholdClassifier::new();
    let id = c.model_id();
    assert!(id.starts_with("threshold_"));
    let suffix = &id["threshold_".len()..];
    assert_eq!(suffix.len(), 32);
    assert!(suffix.chars().all(|ch| ch.is_ascii_digit() || ('a'..='f').contains(&ch)));
}

#[test]
fn error_texts_match_display() {
    let e = OtError::Exchange(ExchangeError::OrderRejected("Margin is insufficient.".to_string()));
    assert_eq!(e.message(), "Exchange error: Order rejected: Margin is insufficient.");
    let r = OtError::Exchange(ExchangeError::RateLimited { retry_after_ms: 1500 });
    assert_eq!(r.message(), "Exchange error: Rate limited, retry after 1500ms");
    assert_eq!(OtError::KillSwitch("daily loss".to_string()).message(), "Kill switch triggered: daily loss");
}
