//! Rule-based market regime classification and regime history.
use vstd::prelude::*;
use crate::decimal::{self, Dec};
use crate::features::FeatureRow;

verus! {

/// Market regime.
#[derive(Clone, Copy, Debug, PartialEq, Eq, Structural)]
pub enum Regime {
    TrendingUp,
    TrendingDown,
    Ranging,
    HighVolatility,
    LowVolatility,
    Transitional,
}

pub open spec fn or_default(x: Option<Dec>, d: Dec) -> Dec {
    match x {
        Some(v) => v,
        None => d,
    }
}

/// The regime of a feature row.  Missing values default to trend 0,
/// volatility 30, RSI 50 and band width 0.03.  In order: volatility above
/// 60 is high volatility; band width below 0.015 with volatility below 15
/// is low volatility; trend above 2 with RSI above 55 is an uptrend; trend
/// below -2 with RSI below 45 a downtrend; `|trend| > 0.5` is transitional;
/// anything else is ranging.
pub open spec fn regime_of(f: FeatureRow) -> Regime {
    let trend = or_default(f.trend_strength, decimal::dec_lit(0, 0));
    let vol = or_default(f.realized_vol_20, decimal::dec_lit(30, 0));
    let rsi = or_default(f.rsi_14, decimal::dec_lit(50, 0));
    let bbw = or_default(f.bb_width, decimal::dec_lit(3, 2));
    if vol@ > decimal::dec_lit(60, 0)@ {
        Regime::HighVolatility
    } else if bbw@ < decimal::dec_lit(15, 3)@ && vol@ < decimal::dec_lit(15, 0)@ {
        Regime::LowVolatility
    } else if trend@ > decimal::dec_lit(2, 0)@ && rsi@ > decimal::dec_lit(55, 0)@ {
        Regime::TrendingUp
    } else if trend@ < decimal::dec_lit(-2, 0)@ && rsi@ < decimal::dec_lit(45, 0)@ {
        Regime::TrendingDown
    } else if decimal::dec_abs(trend) > decimal::dec_lit(5, 1)@ {
        Regime::Transitional
    } else {
        Regime::Ranging
    }
}

fn value_or(x: Option<Dec>, d: Dec) -> (r: Dec)
    ensures
        r == or_default(x, d),
{
    match x {
        Some(v) => v,
        None => d,
    }
}

impl Regime {
    /// Classifies a feature row (see [`regime_of`]).
    pub fn detect(features: &FeatureRow) -> (r: Regime)
        ensures
            r == regime_of(*features),
    {
        let trend = value_or(features.trend_strength, Dec::new(0, 0));
        let vol = value_or(features.realized_vol_20, Dec::new(30, 0));
        let rsi = value_or(features.rsi_14, Dec::new(50, 0));
        let bb_width = value_or(features.bb_width, Dec::new(3, 2));
        if vol.gt(&Dec::new(60, 0)) {
            return Regime::HighVolatility;
        }
        if bb_width.lt(&Dec::new(15, 3)) && vol.lt(&Dec::new(15, 0)) {
            return Regime::LowVolatility;
        }
        if trend.gt(&Dec::new(2, 0)) && rsi.gt(&Dec::new(55, 0)) {
            return Regime::TrendingUp;
        }
        if trend.lt(&Dec::new(-2, 0)) && rsi.lt(&Dec::new(45, 0)) {
            return Regime::TrendingDown;
        }
        if trend.abs().gt(&Dec::new(5, 1)) {
            return Regime::Transitional;
        }
        Regime::Ranging
    }

    /// Trending regimes favor trend-following strategies.
    pub fn favors_trend(self) -> (r: bool)
        ensures
            r == (self == Regime::TrendingUp || self == Regime::TrendingDown),
    {
        match self {
            Regime::TrendingUp | Regime::TrendingDown => true,
            _ => false,
        }
    }

    /// Ranging and quiet regimes favor mean reversion.
    pub fn favors_mean_reversion(self) -> (r: bool)
        ensures
            r == (self == Regime::Ranging || self == Regime::LowVolatility),
    {
        match self {
            Regime::Ranging | Regime::LowVolatility => true,
            _ => false,
        }
    }

    /// Volatile and transitional regimes call for reduced exposure.
    pub fn reduce_exposure(self) -> (r: bool)
        ensures
            r == (self == Regime::HighVolatility || self == Regime::Transitional),
    {
        match self {
            Regime::HighVolatility | Regime::Transitional => true,
            _ => false,
        }
    }
}

/// Recent regimes with their timestamps, oldest first, at most `max_history`.
pub struct RegimeTracker {
    history: Vec<(i64, Regime)>,
    max_history: usize,
}

/// The history after recording one more observation.
pub open spec fn history_after(h: Seq<(i64, Regime)>, max: nat, entry: (i64, Regime)) -> Seq<(i64, Regime)> {
    let pushed = h.push(entry);
    if pushed.len() > max {
        pushed.drop_first()
    } else {
        pushed
    }
}

/// Number of entries of `h` with regime `r`.
pub open spec fn count_regime(h: Seq<(i64, Regime)>, r: Regime) -> nat
    decreases h.len(),
{
    if h.len() == 0 {
        0
    } else {
        count_regime(h.drop_last(), r) + if h.last().1 == r {
            1nat
        } else {
            0nat
        }
    }
}

proof fn lemma_count_regime_bounded(h: Seq<(i64, Regime)>, r: Regime)
    ensures
        count_regime(h, r) <= h.len(),
    decreases h.len(),
{
    if h.len() > 0 {
        lemma_count_regime_bounded(h.drop_last(), r);
    }
}

impl RegimeTracker {
    /// An empty tracker keeping at most `max_history` entries.
    pub fn new(max_history: usize) -> (r: RegimeTracker)
        ensures
            r.history_view().len() == 0,
            r.max_history_view() == max_history,
    {
        RegimeTracker { history: Vec::new(), max_history }
    }

    pub closed spec fn history_view(&self) -> Seq<(i64, Regime)> {
        self.history@
    }

    pub closed spec fn max_history_view(&self) -> nat {
        self.max_history as nat
    }

    /// Classifies the features, appends the regime, drops the oldest entry
    /// beyond the maximum, and returns the regime.
    pub fn update(&mut self, timestamp_ms: i64, features: &FeatureRow) -> (r: Regime)
        ensures
            r == regime_of(*features),
            final(self).max_history_view() == old(self).max_history_view(),
            final(self).history_view() == history_after(
                old(self).history_view(),
                old(self).max_history_view(),
                (timestamp_ms, r),
            ),
    {
        let regime = Regime::detect(features);
        self.history.push((timestamp_ms, regime));
        if self.history.len() > self.max_history {
            self.history.remove(0);
            assert(self.history@ =~= old(self).history@.push((timestamp_ms, regime)).drop_first());
        }
        regime
    }

    /// The most recent regime.
    pub fn current(&self) -> (r: Option<Regime>)
        ensures
            r == (if self.history_view().len() == 0 {
                None
            } else {
                Some(self.history_view().last().1)
            }),
    {
        if self.history.len() == 0 {
            None
        } else {
            Some(self.history[self.history.len() - 1].1)
        }
    }

    /// Fraction of the last `lookback` observations that share the current
    /// regime (the decimal quotient `matching / recent`); zero when there is
    /// no history.  With history, a zero `lookback` divides by zero.
    pub fn stability(&self, lookback: usize) -> (r: Dec)
        requires
            self.history_view().len() == 0 || (lookback > 0 && (lookback <= u32::MAX
                || self.history_view().len() <= u32::MAX)),
        ensures
            self.history_view().len() == 0 ==> r == decimal::dec_lit(0, 0),
            self.history_view().len() > 0 ==> {
                let h = self.history_view();
                let start = if h.len() >= lookback { h.len() - lookback } else { 0 };
                let recent = h.subrange(start, h.len() as int);
                Some(r) == decimal::div_spec(
                    Some(decimal::dec_lit(count_regime(recent, h.last().1) as int, 0)),
                    Some(decimal::dec_lit(recent.len() as int, 0)),
                )
            },
    {
        if self.history.len() == 0 {
            return Dec::new(0, 0);
        }
        let current = self.history[self.history.len() - 1].1;
        let start = if self.history.len() >= lookback {
            self.history.len() - lookback
        } else {
            0
        };
        let ghost recent = self.history@.subrange(start as int, self.history@.len() as int);
        let mut matching: usize = 0;
        let mut i: usize = start;
        while i < self.history.len()
            invariant
                start <= i <= self.history@.len(),
                recent == self.history@.subrange(start as int, self.history@.len() as int),
                matching == count_regime(self.history@.subrange(start as int, i as int), current),
                matching <= i - start,
            decreases self.history@.len() - i,
        {
            assert(self.history@.subrange(start as int, i + 1).drop_last() =~= self.history@.subrange(
                start as int,
                i as int,
            ));
            if self.history[i].1 == current {
                matching = matching + 1;
            }
            i = i + 1;
        }
        let len = self.history.len() - start;
        proof {
            lemma_count_regime_bounded(recent, current);
            decimal::lemma_lit(matching as int, 0);
            decimal::lemma_lit(len as int, 0);
            decimal::lemma_pow10_positive(28);
            assert(matching * decimal::pow10(28) <= len * decimal::pow10(28)) by (nonlinear_arith)
                requires
                    matching <= len,
                    decimal::pow10(28) > 0,
            ;
            assert(len * decimal::pow10(28) > 0) by (nonlinear_arith)
                requires
                    len > 0,
                    decimal::pow10(28) > 0,
            ;
        }
        Dec::from_u32(matching as u32).div(Dec::from_u32(len as u32)).unwrap()
    }
}

} // verus!
