//! Feature rows: the indicator values strategies and models read for one bar.
use vstd::prelude::*;
use crate::decimal::{self, Dec, sub_opt, mul_opt, div_opt};
use crate::indicators::{
    self, sma, ema, macd, rsi, atr, bollinger_bands, simple_return_pct, log_return,
    realized_volatility, macd_full,
};
use crate::types::Candle;

verus! {

/// Indicator values at one point in time.
#[derive(Clone, Copy, Debug)]
pub struct FeatureRow {
    pub timestamp_ms: i64,
    pub close: Dec,
    pub return_1: Option<Dec>,
    pub return_5: Option<Dec>,
    pub log_return_1: Option<Dec>,
    pub sma_20: Option<Dec>,
    pub sma_50: Option<Dec>,
    pub ema_12: Option<Dec>,
    pub ema_26: Option<Dec>,
    pub macd: Option<Dec>,
    pub macd_signal_line: Option<Dec>,
    pub macd_histogram: Option<Dec>,
    pub rsi_14: Option<Dec>,
    pub atr_14: Option<Dec>,
    pub bb_upper: Option<Dec>,
    pub bb_middle: Option<Dec>,
    pub bb_lower: Option<Dec>,
    pub realized_vol_20: Option<Dec>,
    pub bb_width: Option<Dec>,
    pub price_vs_sma20: Option<Dec>,
    pub price_vs_sma50: Option<Dec>,
    pub trend_strength: Option<Dec>,
    pub volume_sma_20: Option<Dec>,
    pub volume_ratio: Option<Dec>,
    pub funding_rate: Option<Dec>,
}

pub open spec fn closes_of(cs: Seq<Candle>) -> Seq<Dec> {
    Seq::new(cs.len(), |i: int| cs[i].close)
}

pub open spec fn highs_of(cs: Seq<Candle>) -> Seq<Dec> {
    Seq::new(cs.len(), |i: int| cs[i].high)
}

pub open spec fn lows_of(cs: Seq<Candle>) -> Seq<Dec> {
    Seq::new(cs.len(), |i: int| cs[i].low)
}

pub open spec fn volumes_of(cs: Seq<Candle>) -> Seq<Dec> {
    Seq::new(cs.len(), |i: int| cs[i].volume)
}

/// The bar-to-bar percentage returns of the first `n` closes, skipping the
/// bars where the previous close is zero.
pub open spec fn pct_returns(c: Seq<Dec>, n: nat) -> Seq<Dec>
    decreases n,
{
    if n < 2 {
        Seq::empty()
    } else {
        let rest = pct_returns(c, (n - 1) as nat);
        match indicators::simple_return_pct_spec(c[n - 1], c[n - 2]) {
            Some(r) => rest.push(r),
            None => rest,
        }
    }
}

/// `(x - base) / base * 100` when `base` is positive.
pub open spec fn pct_above(x: Dec, base: Option<Dec>) -> Option<Dec> {
    match base {
        Some(b) => if b@ > 0 {
            decimal::mul_spec(
                decimal::div_spec(decimal::sub_spec(Some(x), Some(b)), Some(b)),
                Some(decimal::dec_lit(100, 0)),
            )
        } else {
            None
        },
        None => None,
    }
}

pub open spec fn bb_width_spec(bb: Option<(Dec, Dec, Dec)>) -> Option<Dec> {
    match bb {
        Some((u, m, l)) => if m@ > 0 {
            decimal::div_spec(decimal::sub_spec(Some(u), Some(l)), Some(m))
        } else {
            None
        },
        None => None,
    }
}

pub open spec fn trend_strength_spec(s20: Option<Dec>, s50: Option<Dec>) -> Option<Dec> {
    match (s20, s50) {
        (Some(a), Some(b)) => if b@ > 0 {
            decimal::mul_spec(
                decimal::div_spec(decimal::sub_spec(Some(a), Some(b)), Some(b)),
                Some(decimal::dec_lit(100, 0)),
            )
        } else {
            None
        },
        _ => None,
    }
}

pub open spec fn volume_ratio_spec(volume: Dec, vsma: Option<Dec>) -> Option<Dec> {
    match vsma {
        Some(v) => if v@ > 0 {
            decimal::div_spec(Some(volume), Some(v))
        } else {
            None
        },
        None => None,
    }
}

pub open spec fn realized_vol_spec(rets: Seq<Dec>) -> Option<Dec> {
    if rets.len() >= 20 {
        indicators::realized_volatility_spec(
            rets.subrange(rets.len() - 20, rets.len() as int),
            decimal::dec_lit(252, 0),
        )
    } else {
        None
    }
}

/// The feature row of the last candle; `None` for fewer than 51 candles.
pub open spec fn features_spec(cs: Seq<Candle>) -> Option<FeatureRow> {
    if cs.len() < 51 {
        None
    } else {
        let c = closes_of(cs);
        let n = c.len();
        let cur = cs.last();
        let sma_20 = indicators::sma_spec(c, 20);
        let sma_50 = indicators::sma_spec(c, 50);
        let bb = indicators::bollinger_spec(c, 20, decimal::dec_lit(2, 0));
        let full = indicators::macd_full_spec(c, 12, 26, 9);
        let volume_sma = indicators::sma_spec(volumes_of(cs), 20);
        Some(
            FeatureRow {
                timestamp_ms: cur.close_time_ms,
                close: cur.close,
                return_1: indicators::simple_return_pct_spec(c[n - 1], c[n - 2]),
                return_5: indicators::simple_return_pct_spec(c[n - 1], c[n - 6]),
                log_return_1: indicators::log_return_spec(c[n - 1], c[n - 2]),
                sma_20,
                sma_50,
                ema_12: indicators::ema_spec(c, 12),
                ema_26: indicators::ema_spec(c, 26),
                macd: indicators::macd_spec(c, 12, 26),
                macd_signal_line: match full {
                    Some((_, s, _)) => Some(s),
                    None => None,
                },
                macd_histogram: match full {
                    Some((_, _, h)) => Some(h),
                    None => None,
                },
                rsi_14: indicators::rsi_spec(c, 14),
                atr_14: indicators::atr_spec(highs_of(cs), lows_of(cs), c, 14),
                bb_upper: match bb {
                    Some((u, _, _)) => Some(u),
                    None => None,
                },
                bb_middle: match bb {
                    Some((_, m, _)) => Some(m),
                    None => None,
                },
                bb_lower: match bb {
                    Some((_, _, l)) => Some(l),
                    None => None,
                },
                realized_vol_20: realized_vol_spec(pct_returns(c, n)),
                bb_width: bb_width_spec(bb),
                price_vs_sma20: pct_above(cur.close, sma_20),
                price_vs_sma50: pct_above(cur.close, sma_50),
                trend_strength: trend_strength_spec(sma_20, sma_50),
                volume_sma_20: volume_sma,
                volume_ratio: volume_ratio_spec(cur.volume, volume_sma),
                funding_rate: None,
            },
        )
    }
}

fn project(candles: &[Candle], which: u8) -> (r: Vec<Dec>)
    ensures
        which == 0 ==> r@ == closes_of(candles@),
        which == 1 ==> r@ == highs_of(candles@),
        which == 2 ==> r@ == lows_of(candles@),
        which == 3 ==> r@ == volumes_of(candles@),
{
    let mut out: Vec<Dec> = Vec::new();
    let mut i: usize = 0;
    while i < candles.len()
        invariant
            0 <= i <= candles.len(),
            out@.len() == i,
            forall|j: int|
                0 <= j < i ==> out@[j] == (if which == 0 {
                    candles@[j].close
                } else if which == 1 {
                    candles@[j].high
                } else if which == 2 {
                    candles@[j].low
                } else {
                    candles@[j].volume
                }),
        decreases candles.len() - i,
    {
        let c = &candles[i];
        let v = if which == 0 {
            c.close
        } else if which == 1 {
            c.high
        } else if which == 2 {
            c.low
        } else {
            c.volume
        };
        out.push(v);
        i = i + 1;
    }
    proof {
        if which == 0 {
            assert(out@ =~= closes_of(candles@));
        } else if which == 1 {
            assert(out@ =~= highs_of(candles@));
        } else if which == 2 {
            assert(out@ =~= lows_of(candles@));
        } else if which == 3 {
            assert(out@ =~= volumes_of(candles@));
        }
    }
    out
}

fn collect_returns(closes: &[Dec]) -> (r: Vec<Dec>)
    requires
        closes@.len() >= 1,
    ensures
        r@ == pct_returns(closes@, closes@.len()),
{
    let mut out: Vec<Dec> = Vec::new();
    let mut i: usize = 1;
    while i < closes.len()
        invariant
            1 <= i <= closes.len(),
            out@ == pct_returns(closes@, i as nat),
        decreases closes.len() - i,
    {
        if let Some(r) = simple_return_pct(closes[i], closes[i - 1]) {
            out.push(r);
        }
        i = i + 1;
    }
    out
}

fn pct_above_of(x: Dec, base: Option<Dec>) -> (r: Option<Dec>)
    ensures
        r == pct_above(x, base),
{
    match base {
        Some(b) => {
            if b.gt(&Dec::zero()) {
                mul_opt(div_opt(x.sub(b), Some(b)), Some(Dec::new(100, 0)))
            } else {
                None
            }
        },
        None => None,
    }
}

/// Computes the feature row of the last candle from the candles up to it
/// (no lookahead).  `None` for fewer than 51 candles.
pub fn compute_features(candles: &[Candle]) -> (r: Option<FeatureRow>)
    ensures
        r == features_spec(candles@),
{
    if candles.len() < 51 {
        return None;
    }
    let closes = project(candles, 0);
    let highs = project(candles, 1);
    let lows = project(candles, 2);
    let volumes = project(candles, 3);
    let current = &candles[candles.len() - 1];
    let n = closes.len();
    let return_1 = simple_return_pct(closes[n - 1], closes[n - 2]);
    let return_5 = simple_return_pct(closes[n - 1], closes[n - 6]);
    let log_return_1 = log_return(closes[n - 1], closes[n - 2]);
    let sma_20 = sma(&closes, 20);
    let sma_50 = sma(&closes, 50);
    let ema_12 = ema(&closes, 12);
    let ema_26 = ema(&closes, 26);
    let macd_line = macd(&closes, 12, 26);
    let full = macd_full(&closes, 12, 26, 9);
    let rsi_14 = rsi(&closes, 14);
    let atr_14 = atr(&highs, &lows, &closes, 14);
    let bb = bollinger_bands(&closes, 20, Dec::new(2, 0));
    let (bb_upper, bb_middle, bb_lower) = match bb {
        Some((u, m, l)) => (Some(u), Some(m), Some(l)),
        None => (None, None, None),
    };
    let bb_width = match bb {
        Some((u, m, l)) => {
            if m.gt(&Dec::zero()) {
                div_opt(u.sub(l), Some(m))
            } else {
                None
            }
        },
        None => None,
    };
    let rets = collect_returns(&closes);
    let realized_vol_20 = if rets.len() >= 20 {
        realized_volatility(&rets[rets.len() - 20..rets.len()], Dec::new(252, 0))
    } else {
        None
    };
    let price_vs_sma20 = pct_above_of(current.close, sma_20);
    let price_vs_sma50 = pct_above_of(current.close, sma_50);
    let trend_strength = match (sma_20, sma_50) {
        (Some(a), Some(b)) => {
            if b.gt(&Dec::zero()) {
                mul_opt(div_opt(a.sub(b), Some(b)), Some(Dec::new(100, 0)))
            } else {
                None
            }
        },
        _ => None,
    };
    let volume_sma_20 = sma(&volumes, 20);
    let volume_ratio = match volume_sma_20 {
        Some(v) => {
            if v.gt(&Dec::zero()) {
                current.volume.div(v)
            } else {
                None
            }
        },
        None => None,
    };
    let (macd_signal_line, macd_histogram) = match full {
        Some((_, s, h)) => (Some(s), Some(h)),
        None => (None, None),
    };
    Some(
        FeatureRow {
            timestamp_ms: current.close_time_ms,
            close: current.close,
            return_1,
            return_5,
            log_return_1,
            sma_20,
            sma_50,
            ema_12,
            ema_26,
            macd: macd_line,
            macd_signal_line,
            macd_histogram,
            rsi_14,
            atr_14,
            bb_upper,
            bb_middle,
            bb_lower,
            realized_vol_20,
            bb_width,
            price_vs_sma20,
            price_vs_sma50,
            trend_strength,
            volume_sma_20,
            volume_ratio,
            funding_rate: None,
        },
    )
}

} // verus!
