//! Trend following: a fast/slow moving-average crossover with RSI and
//! trend-strength filters, and ATR-based stops and targets.
use vstd::prelude::*;
use crate::decimal::{self, Dec};
use crate::config::ParamValue;
use crate::features::FeatureRow;
use crate::types::{Candle, Position, PositionSide, Signal, SignalDirection};
use crate::strategy::{
    self, Strategy, lit, lit_dec, add_exact, sub_exact, get_u64, get_dec, get_bool, get_text,
    make_signal, metadata, input, position_state, param_u64, param_dec, param_bool, param_text,
    has_open_position, side_of, deref_position, signal_is, next_bar, count_bar, below_by,
    above_by, exact_offset, lemma_offset_sides, levels_bracket_entry,
};

verus! {

/// Trend-following strategy.
///
/// Entry long: fast SMA above slow SMA, close above the fast SMA and RSI
/// below the overbought level.  Entry short (when allowed): the mirror
/// image.  Exit: the averages cross against the position.
#[derive(Clone, Debug)]
pub struct TrendFollowing {
    pub name: String,
    pub fast_period: usize,
    pub slow_period: usize,
    pub rsi_overbought: Dec,
    pub rsi_oversold: Dec,
    pub atr_stop_multiplier: Dec,
    pub atr_target_multiplier: Dec,
    pub min_trend_strength: Dec,
    pub bars_since_signal: u32,
    pub cooldown: u32,
    pub allow_short: bool,
}

/// `max(v, 0)` then `min(.., 0.95)`, on values.
pub open spec fn clamp_confidence(v: int) -> int {
    let lo = if v < 0 {
        0
    } else {
        v
    };
    if lit(95, 2) < lo {
        lit(95, 2)
    } else {
        lo
    }
}

/// The confidence of a trend entry, in units of `10^-28`: 0.40, plus 0.10
/// for an RSI that confirms without being neutral (40..60), plus 0.15 for
/// trend strength beyond the minimum in the trade's direction, plus 0.10
/// for volume above 1.2x average, plus 0.15 (or minus 0.10) for a MACD
/// histogram that confirms (or opposes), plus 0.05 for a Bollinger width
/// below 0.02; clamped to 0..0.95.
pub open spec fn trend_confidence(min_ts: Dec, f: FeatureRow, is_long: bool) -> int {
    let s0 = lit(40, 2);
    let s1 = match f.rsi_14 {
        Some(rsi) => if lit(40, 0) < rsi@ && rsi@ < lit(60, 0) {
            s0
        } else if (is_long && rsi@ < lit(70, 0)) || (!is_long && rsi@ > lit(30, 0)) {
            s0 + lit(10, 2)
        } else {
            s0
        },
        None => s0,
    };
    let s2 = match f.trend_strength {
        Some(ts) => if (if is_long {
            ts@
        } else {
            -ts@
        }) > min_ts@ {
            s1 + lit(15, 2)
        } else {
            s1
        },
        None => s1,
    };
    let s3 = match f.volume_ratio {
        Some(vr) => if vr@ > lit(12, 1) {
            s2 + lit(10, 2)
        } else {
            s2
        },
        None => s2,
    };
    let s4 = match f.macd_histogram {
        Some(h) => if (is_long && h@ > 0) || (!is_long && h@ < 0) {
            s3 + lit(15, 2)
        } else {
            s3 - lit(10, 2)
        },
        None => s3,
    };
    let s5 = match f.bb_width {
        Some(w) => if w@ < lit(2, 2) {
            s4 + lit(5, 2)
        } else {
            s4
        },
        None => s4,
    };
    clamp_confidence(s5)
}

/// The direction of the signal the strategy would emit on this bar, given
/// its state after counting the bar (`None`: no signal).
pub open spec fn trend_decision(
    s: TrendFollowing,
    c: Candle,
    f: FeatureRow,
    p: Option<Position>,
) -> Option<SignalDirection> {
    if f.sma_20 is None || f.sma_50 is None || f.rsi_14 is None || f.atr_14 is None {
        None
    } else if next_bar(s.bars_since_signal) < s.cooldown {
        None
    } else {
        let fast = f.sma_20->0;
        let slow = f.sma_50->0;
        let rsi = f.rsi_14->0;
        let up = fast@ > slow@;
        if has_open_position(p) {
            match side_of(p) {
                PositionSide::Long => if !up {
                    Some(SignalDirection::Flat)
                } else {
                    None
                },
                PositionSide::Short => if up {
                    Some(SignalDirection::Flat)
                } else {
                    None
                },
                PositionSide::Flat => None,
            }
        } else if up && c.close@ > fast@ && rsi@ < s.rsi_overbought@ {
            Some(SignalDirection::Long)
        } else if s.allow_short && !up && c.close@ < fast@ && rsi@ > s.rsi_oversold@ {
            Some(SignalDirection::Short)
        } else {
            None
        }
    }
}

/// The strategy with `bars` as its bar counter.
pub open spec fn with_bars(s: TrendFollowing, bars: u32) -> TrendFollowing {
    TrendFollowing { bars_since_signal: bars, ..s }
}

impl TrendFollowing {
    /// Builds the strategy from its parameters (defaults: periods 20/50,
    /// RSI levels 70/30, ATR multipliers 2 and 3, minimum trend strength
    /// 0.5, cooldown 5 bars, long only).
    pub fn new(params: &Vec<(String, ParamValue)>) -> (r: Self)
        ensures
            r.name@ == param_text(params@, "name"@, "trend_following"@),
            r.fast_period == param_u64(params@, "fast_period"@, 20) as usize,
            r.slow_period == param_u64(params@, "slow_period"@, 50) as usize,
            r.rsi_overbought == param_dec(params@, "rsi_overbought"@, decimal::dec_lit(70, 0)),
            r.rsi_oversold == param_dec(params@, "rsi_oversold"@, decimal::dec_lit(30, 0)),
            r.atr_stop_multiplier == param_dec(
                params@,
                "atr_stop_multiplier"@,
                decimal::dec_lit(2, 0),
            ),
            r.atr_target_multiplier == param_dec(
                params@,
                "atr_target_multiplier"@,
                decimal::dec_lit(3, 0),
            ),
            r.min_trend_strength == param_dec(
                params@,
                "min_trend_strength"@,
                decimal::dec_lit(5, 1),
            ),
            r.bars_since_signal == 0,
            r.cooldown == param_u64(params@, "cooldown"@, 5) as u32,
            r.allow_short == param_bool(params@, "allow_short"@, false),
    {
        TrendFollowing {
            name: get_text(params, "name", "trend_following"),
            fast_period: get_u64(params, "fast_period", 20) as usize,
            slow_period: get_u64(params, "slow_period", 50) as usize,
            rsi_overbought: get_dec(params, "rsi_overbought", lit_dec(70, 0)),
            rsi_oversold: get_dec(params, "rsi_oversold", lit_dec(30, 0)),
            atr_stop_multiplier: get_dec(params, "atr_stop_multiplier", lit_dec(2, 0)),
            atr_target_multiplier: get_dec(params, "atr_target_multiplier", lit_dec(3, 0)),
            min_trend_strength: get_dec(params, "min_trend_strength", lit_dec(5, 1)),
            bars_since_signal: 0,
            cooldown: get_u64(params, "cooldown", 5) as u32,
            allow_short: get_bool(params, "allow_short", false),
        }
    }

    /// Confidence of an entry in the given direction.
    pub fn compute_confidence(&self, features: &FeatureRow, is_long: bool) -> (r: Dec)
        ensures
            r@ == trend_confidence(self.min_trend_strength, *features, is_long),
    {
        proof {
            decimal::lemma_pow10_28();
            reveal_with_fuel(decimal::pow10, 29);
        }
        let mut score = lit_dec(40, 2);
        let ghost s0 = score@;
        if let Some(rsi) = features.rsi_14 {
            if lit_dec(40, 0).lt(&rsi) && rsi.lt(&lit_dec(60, 0)) {
            } else if (is_long && rsi.lt(&lit_dec(70, 0))) || (!is_long && rsi.gt(&lit_dec(30, 0))) {
                score = add_exact(score, lit_dec(10, 2));
            }
        }
        if let Some(ts) = features.trend_strength {
            let directional = if is_long {
                ts
            } else {
                ts.neg()
            };
            if directional.gt(&self.min_trend_strength) {
                score = add_exact(score, lit_dec(15, 2));
            }
        }
        if let Some(vr) = features.volume_ratio {
            if vr.gt(&lit_dec(12, 1)) {
                score = add_exact(score, lit_dec(10, 2));
            }
        }
        if let Some(h) = features.macd_histogram {
            let confirming = if is_long {
                h.gt(&Dec::zero())
            } else {
                h.lt(&Dec::zero())
            };
            if confirming {
                score = add_exact(score, lit_dec(15, 2));
            } else {
                score = sub_exact(score, lit_dec(10, 2));
            }
        }
        if let Some(w) = features.bb_width {
            if w.lt(&lit_dec(2, 2)) {
                score = add_exact(score, lit_dec(5, 2));
            }
        }
        score.max(Dec::zero()).min(lit_dec(95, 2))
    }
}

impl Strategy for TrendFollowing {
    open spec fn name_spec(&self) -> Seq<char> {
        self.name@
    }

    open spec fn bar_relation(
        &self,
        candle: Candle,
        features: FeatureRow,
        position: Option<Position>,
        after: Self,
        r: Option<Signal>,
    ) -> bool {
        let s0 = *self;
        let counted = next_bar(s0.bars_since_signal);
        let p = position;
        match trend_decision(s0, candle, features, p) {
            None => r is None && after == with_bars(s0, counted),
            Some(SignalDirection::Flat) => r is Some && signal_is(
                r->0,
                s0.name@,
                candle,
                SignalDirection::Flat,
                decimal::dec_lit(8, 1),
                decimal::dec_lit(7, 1),
                None,
                None,
                None,
            ) && after == with_bars(s0, 0),
            Some(SignalDirection::Long) => {
                let atr = features.atr_14->0;
                let stop = below_by(candle.close, atr, s0.atr_stop_multiplier);
                let target = above_by(candle.close, atr, s0.atr_target_multiplier);
                if stop is Some && target is Some {
                    &&& r is Some
                    &&& signal_is(
                        r->0,
                        s0.name@,
                        candle,
                        SignalDirection::Long,
                        decimal::dec_lit(1, 0),
                        r->0.confidence,
                        stop,
                        target,
                        Some(50),
                    )
                    &&& r->0.confidence@ == trend_confidence(
                        s0.min_trend_strength,
                        features,
                        true,
                    )
                    &&& r->0.metadata.uncertainty_score is Some
                    &&& r->0.metadata.uncertainty_score->0@ == lit(1, 0)
                        - r->0.confidence@
                    &&& r->0.metadata.regime is Some
                    &&& r->0.metadata.regime->0@ == "trending_up"@
                    &&& after == with_bars(s0, 0)
                } else {
                    r is None && after == with_bars(s0, counted)
                }
            },
            Some(_) => {
                let atr = features.atr_14->0;
                let stop = above_by(candle.close, atr, s0.atr_stop_multiplier);
                let target = below_by(candle.close, atr, s0.atr_target_multiplier);
                if stop is Some && target is Some {
                    &&& r is Some
                    &&& signal_is(
                        r->0,
                        s0.name@,
                        candle,
                        SignalDirection::Short,
                        decimal::dec_lit(1, 0),
                        r->0.confidence,
                        stop,
                        target,
                        Some(50),
                    )
                    &&& r->0.confidence@ == trend_confidence(
                        s0.min_trend_strength,
                        features,
                        false,
                    )
                    &&& r->0.metadata.uncertainty_score is Some
                    &&& r->0.metadata.uncertainty_score->0@ == lit(1, 0)
                        - r->0.confidence@
                    &&& r->0.metadata.regime is Some
                    &&& r->0.metadata.regime->0@ == "trending_down"@
                    &&& after == with_bars(s0, 0)
                } else {
                    r is None && after == with_bars(s0, counted)
                }
            },
        }
    }

    open spec fn reset_relation(&self, after: Self) -> bool {
        &&& after == with_bars(*self, 0)
    }

    fn name(&self) -> (r: &str)
        ensures
            r@ == self.name@,
    {
        self.name.as_str()
    }

    fn on_bar(
        &mut self,
        candle: &Candle,
        features: &FeatureRow,
        current_position: Option<&Position>,
    ) -> (r: Option<Signal>)

    {
        let ghost s0 = *self;
        self.bars_since_signal = count_bar(self.bars_since_signal);
        let sma_fast = match features.sma_20 {
            Some(v) => v,
            None => return None,
        };
        let sma_slow = match features.sma_50 {
            Some(v) => v,
            None => return None,
        };
        let rsi = match features.rsi_14 {
            Some(v) => v,
            None => return None,
        };
        let atr = match features.atr_14 {
            Some(v) => v,
            None => return None,
        };
        if self.bars_since_signal < self.cooldown {
            return None;
        }
        let is_uptrend = sma_fast.gt(&sma_slow);
        let price_above_fast = candle.close.gt(&sma_fast);
        let price_below_fast = candle.close.lt(&sma_fast);
        let (has_position, position_side) = position_state(current_position);

        if has_position {
            let exit = match position_side {
                PositionSide::Long => !is_uptrend,
                PositionSide::Short => is_uptrend,
                PositionSide::Flat => false,
            };
            if exit {
                self.bars_since_signal = 0;
                let mut inputs: Vec<(String, String)> = Vec::new();
                match position_side {
                    PositionSide::Long => {
                        inputs.push(input("sma_fast", sma_fast.to_string()));
                        inputs.push(input("sma_slow", sma_slow.to_string()));
                        inputs.push(input("rsi", rsi.to_string()));
                        inputs.push(input("reason", String::from_str("trend_reversal_exit")));
                    },
                    _ => {
                        inputs.push(
                            input("reason", String::from_str("trend_reversal_exit_short")),
                        );
                    },
                }
                return Some(
                    make_signal(
                        &self.name,
                        candle,
                        SignalDirection::Flat,
                        lit_dec(8, 1),
                        lit_dec(7, 1),
                        None,
                        None,
                        None,
                        metadata(inputs, None, None),
                    ),
                );
            }
            return None;
        }

        if is_uptrend && price_above_fast && rsi.lt(&self.rsi_overbought) {
            let stop = decimal::sub_opt(Some(candle.close), atr.mul(self.atr_stop_multiplier));
            let target = decimal::add_opt(Some(candle.close), atr.mul(self.atr_target_multiplier));
            if stop.is_none() || target.is_none() {
                return None;
            }
            let confidence = self.compute_confidence(features, true);
            proof {
                decimal::lemma_pow10_28();
            }
            let uncertainty = sub_exact(lit_dec(1, 0), confidence);
            self.bars_since_signal = 0;
            let mut inputs: Vec<(String, String)> = Vec::new();
            inputs.push(input("sma_fast", sma_fast.to_string()));
            inputs.push(input("sma_slow", sma_slow.to_string()));
            inputs.push(input("rsi", rsi.to_string()));
            inputs.push(input("atr", atr.to_string()));
            inputs.push(input("reason", String::from_str("trend_long_entry")));
            return Some(
                make_signal(
                    &self.name,
                    candle,
                    SignalDirection::Long,
                    lit_dec(1, 0),
                    confidence,
                    stop,
                    target,
                    Some(50),
                    metadata(inputs, Some(uncertainty), Some("trending_up")),
                ),
            );
        }

        if self.allow_short && !is_uptrend && price_below_fast && rsi.gt(&self.rsi_oversold) {
            let stop = decimal::add_opt(Some(candle.close), atr.mul(self.atr_stop_multiplier));
            let target = decimal::sub_opt(Some(candle.close), atr.mul(self.atr_target_multiplier));
            if stop.is_none() || target.is_none() {
                return None;
            }
            let confidence = self.compute_confidence(features, false);
            proof {
                decimal::lemma_pow10_28();
            }
            let uncertainty = sub_exact(lit_dec(1, 0), confidence);
            self.bars_since_signal = 0;
            let mut inputs: Vec<(String, String)> = Vec::new();
            inputs.push(input("sma_fast", sma_fast.to_string()));
            inputs.push(input("sma_slow", sma_slow.to_string()));
            inputs.push(input("rsi", rsi.to_string()));
            inputs.push(input("atr", atr.to_string()));
            inputs.push(input("reason", String::from_str("trend_short_entry")));
            return Some(
                make_signal(
                    &self.name,
                    candle,
                    SignalDirection::Short,
                    lit_dec(1, 0),
                    confidence,
                    stop,
                    target,
                    Some(50),
                    metadata(inputs, Some(uncertainty), Some("trending_down")),
                ),
            );
        }
        None
    }

    /// What `params` lists for this state.
    open spec fn params_relation(&self, r: Seq<(String, ParamValue)>) -> bool {
        &&& (r.len() == 4)
        &&& (r[0].0@ == "fast_period"@)
        &&& (r[1].0@ == "slow_period"@)
        &&& (r[2].0@ == "rsi_overbought"@)
        &&& (r[3].0@ == "rsi_oversold"@)
        &&& (r[2].1 matches ParamValue::Text(t)
            && t@ == decimal::decimal_display(self.rsi_overbought))
        &&& (r[3].1 matches ParamValue::Text(t)
            && t@ == decimal::decimal_display(self.rsi_oversold))
    }

    fn params(&self) -> (r: Vec<(String, ParamValue)>)
        ensures
            r@.len() == 4,
            r@[0].0@ == "fast_period"@,
            r@[1].0@ == "slow_period"@,
            r@[2].0@ == "rsi_overbought"@,
            r@[3].0@ == "rsi_oversold"@,
            r@[2].1 matches ParamValue::Text(t) && t@ == decimal::decimal_display(
                self.rsi_overbought,
            ),
            r@[3].1 matches ParamValue::Text(t) && t@ == decimal::decimal_display(
                self.rsi_oversold,
            ),
    {
        let mut m: Vec<(String, ParamValue)> = Vec::new();
        m.push((String::from_str("fast_period"), ParamValue::UInt(self.fast_period as u64)));
        m.push((String::from_str("slow_period"), ParamValue::UInt(self.slow_period as u64)));
        m.push(
            (String::from_str("rsi_overbought"), ParamValue::Text(self.rsi_overbought.to_string())),
        );
        m.push(
            (String::from_str("rsi_oversold"), ParamValue::Text(self.rsi_oversold.to_string())),
        );
        m
    }

    fn reset(&mut self)

    {
        self.bars_since_signal = 0;
    }

    fn cooldown_bars(&self) -> (r: u32)
        ensures
            r == self.cooldown,
    {
        self.cooldown
    }
}

/// Trend entries protect themselves: with a positive ATR and positive stop
/// and target multipliers (and exact decimal offsets), a long's stop is
/// below the entry and its target above, and a short's stop is above the
/// entry and its target below.
pub proof fn law_trend_levels_bracket_entry(
    s0: TrendFollowing,
    candle: Candle,
    features: FeatureRow,
    position: Option<Position>,
    after: TrendFollowing,
    sig: Signal,
)
    requires
        s0.bar_relation(candle, features, position, after, Some(sig)),
        features.atr_14 matches Some(atr) && atr@ > 0,
        s0.atr_stop_multiplier@ > 0,
        s0.atr_target_multiplier@ > 0,
        exact_offset(candle.close, features.atr_14->0, s0.atr_stop_multiplier),
        exact_offset(candle.close, features.atr_14->0, s0.atr_target_multiplier),
    ensures
        sig.direction == SignalDirection::Long || sig.direction == SignalDirection::Short ==> (
        sig.entry_price == Some(candle.close) && sig.stop_loss is Some && sig.take_profit is Some),
        levels_bracket_entry(sig),
{
    let atr = features.atr_14->0;
    lemma_offset_sides(candle.close, atr, s0.atr_stop_multiplier);
    lemma_offset_sides(candle.close, atr, s0.atr_target_multiplier);
}

} // verus!
