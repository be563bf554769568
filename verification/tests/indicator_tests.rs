use opentrade::decimal::Dec;
use opentrade::indicators::{
    atr, bollinger_bands, decimal_sqrt, ema, log_return, macd, macd_full, order_book_imbalance, rsi,
    simple_return_pct, sma, std_deviation, sum,
};

fn d(m: i64, s: u32) -> Dec {
    Dec::new(m, s)
}

fn ints(from: i64, to: i64, mult: i64) -> Vec<Dec> {
    (from..=to).map(|i| Dec::from_i64(i * mult)).collect()
}

#[test]
fn sma_basic() {
    let values = ints(1, 5, 1);
    assert_eq!(sma(&values, 5), Some(d(3, 0)));
    assert_eq!(sma(&values, 3), Some(d(4, 0)));
}

#[test]
fn sma_insufficient_data() {
    let values = vec![d(1, 0), d(2, 0)];
    assert_eq!(sma(&values, 5), None);
}

#[test]
fn ema_converges() {
    let values = ints(1, 20, 1);
    let result = ema(&values, 10);
    assert!(result.is_some());
    let ema_val = result.unwrap();
    assert!(ema_val.gt(&d(10, 0)));
    assert!(ema_val.lt(&d(20, 0)));
}

#[test]
fn rsi_range() {
    let closes = vec![
        d(44, 0), d(4434, 2), d(4409, 2), d(4361, 2), d(4433, 2),
        d(4483, 2), d(4510, 2), d(4542, 2), d(4584, 2), d(4608, 2),
        d(4589, 2), d(4603, 2), d(4561, 2), d(4628, 2), d(4628, 2),
    ];
    let result = rsi(&closes, 14);
    assert!(result.is_some());
    let rsi_val = result.unwrap();
    assert!(rsi_val.ge(&d(0, 0)) && rsi_val.le(&d(100, 0)));
}

#[test]
fn atr_basic() {
    let highs = vec![d(12, 0), d(13, 0), d(14, 0), d(13, 0), d(15, 0)];
    let lows = vec![d(10, 0), d(11, 0), d(12, 0), d(11, 0), d(13, 0)];
    let closes = vec![d(11, 0), d(12, 0), d(13, 0), d(12, 0), d(14, 0)];
    let result = atr(&highs, &lows, &closes, 3);
    assert!(result.is_some());
}

#[test]
fn macd_basic() {
    let closes = ints(1, 30, 10);
    assert!(macd(&closes, 12, 26).is_some());
}

#[test]
fn bollinger_bands_symmetric() {
    let closes = vec![d(100, 0); 20];
    let (upper, middle, lower) = bollinger_bands(&closes, 20, d(2, 0)).unwrap();
    assert_eq!(middle, d(100, 0));
    assert_eq!(upper, d(100, 0));
    assert_eq!(lower, d(100, 0));
}

#[test]
fn order_book_imbalance_balanced() {
    assert_eq!(order_book_imbalance(d(100, 0), d(100, 0)), Some(d(0, 0)));
}

#[test]
fn order_book_imbalance_bid_heavy() {
    assert_eq!(order_book_imbalance(d(80, 0), d(20, 0)), Some(d(6, 1)));
}

#[test]
fn log_return_positive() {
    let result = log_return(d(105, 0), d(100, 0)).unwrap();
    assert!(result.gt(&d(4, 2)) && result.lt(&d(6, 2)));
}

#[test]
fn simple_return_pct_basic() {
    assert_eq!(simple_return_pct(d(110, 0), d(100, 0)), Some(d(10, 0)));
}

#[test]
fn decimal_sqrt_known_values() {
    let four = decimal_sqrt(d(4, 0)).unwrap();
    assert!(four.sub(d(2, 0)).unwrap().abs().lt(&d(1, 4)));
    let nine = decimal_sqrt(d(9, 0)).unwrap();
    assert!(nine.sub(d(3, 0)).unwrap().abs().lt(&d(1, 4)));
}

#[test]
fn macd_full_returns_three_components() {
    let closes = ints(1, 50, 100);
    let result = macd_full(&closes, 12, 26, 9);
    assert!(result.is_some());
    let (line, signal, hist) = result.unwrap();
    assert_eq!(line.sub(signal), Some(hist));
}

#[test]
fn macd_full_boundary_min_data() {
    let closes = ints(1, 35, 100);
    let result = macd_full(&closes, 12, 26, 9);
    assert!(result.is_some());
    let (line, signal, hist) = result.unwrap();
    assert_eq!(line.sub(signal), Some(hist));
}

#[test]
fn macd_full_needs_enough_data() {
    let closes = ints(1, 30, 1);
    assert!(macd_full(&closes, 12, 26, 9).is_none());
}

#[test]
fn macd_full_fast_ge_slow_invalid() {
    let closes = ints(1, 50, 1);
    assert!(macd_full(&closes, 26, 26, 9).is_none());
    assert!(macd_full(&closes, 30, 26, 9).is_none());
}

#[test]
fn sum_adds_left_to_right() {
    assert_eq!(sum(&[d(15, 1), d(25, 1), d(-1, 0)]), Some(d(3, 0)));
    assert_eq!(sum(&[]), Some(d(0, 0)));
}

#[test]
fn sma_zero_period_is_none() {
    assert_eq!(sma(&ints(1, 5, 1), 0), None);
}

#[test]
fn simple_return_zero_previous_is_none() {
    assert_eq!(simple_return_pct(d(110, 0), d(0, 0)), None);
}

#[test]
fn order_book_imbalance_empty_book() {
    assert_eq!(order_book_imbalance(d(0, 0), d(0, 0)), None);
}

#[test]
fn std_deviation_of_constant_is_zero() {
    assert_eq!(std_deviation(&vec![d(7, 0); 5], 5), Some(d(0, 0)));
}

#[test]
fn sqrt_of_zero_and_negative() {
    assert_eq!(decimal_sqrt(d(0, 0)), Some(d(0, 0)));
    assert_eq!(decimal_sqrt(d(-4, 0)), None);
}

#[test]
fn rsi_all_gains_is_hundred() {
    let closes = ints(1, 20, 1);
    assert_eq!(rsi(&closes, 14), Some(d(100, 0)));
}
