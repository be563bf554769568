//! Cross-timeframe disagreement: when the primary timeframe's RSI disagrees
//! with a cached higher-timeframe view, trade in the higher timeframe's
//! trend direction (buy the dip in an uptrend, sell the rally in a downtrend).
use vstd::prelude::*;
use crate::decimal::{self, Dec};
use crate::config::ParamValue;
use crate::features::FeatureRow;
use crate::types::{Candle, Position, Signal, SignalDirection};
use crate::strategy::{
    Strategy, lit, lit_dec, get_u64, get_dec, get_text, make_signal, metadata, input,
    position_state, param_u64, param_dec, param_text, has_open_position, deref_position, signal_is,
    next_bar, count_bar, below_by, above_by,
    exact_offset, lemma_offset_sides, levels_bracket_entry, stop_on_loss_side,
};

verus! {

/// Cross-timeframe disagreement strategy.  The higher-timeframe features
/// are set from outside with `set_higher_tf_features`.
#[derive(Clone, Debug)]
pub struct CrossTimeframe {
    pub name: String,
    pub min_disagreement: Dec,
    pub higher_tf_rsi: Option<Dec>,
    pub higher_tf_trend: Option<Dec>,
    pub higher_tf_macd: Option<Dec>,
    pub atr_stop_multiplier: Dec,
    pub atr_target_multiplier: Dec,
    pub cooldown: u32,
    pub bars_since_signal: u32,
}

/// The direction taken from the higher timeframe and the size of the RSI
/// disagreement, when the two timeframes disagree enough.
pub open spec fn disagreement_spec(s: CrossTimeframe, f: FeatureRow) -> Option<(SignalDirection, Dec)> {
    if f.rsi_14 is None || s.higher_tf_rsi is None || s.higher_tf_trend is None {
        None
    } else {
        let lower = f.rsi_14->0;
        let trend = s.higher_tf_trend->0;
        match decimal::decimal_checked_sub(lower, s.higher_tf_rsi->0) {
            None => None,
            Some(diff) => if decimal::dec_abs(diff) < s.min_disagreement@ {
                None
            } else if trend@ > lit(1, 0) && lower@ < lit(40, 0) {
                Some((SignalDirection::Long, decimal::dec_abs_of(diff)))
            } else if trend@ < -lit(1, 0) && lower@ > lit(60, 0) {
                Some((SignalDirection::Short, decimal::dec_abs_of(diff)))
            } else {
                None
            },
        }
    }
}

/// What the strategy decides on a bar (`None`: no signal).
pub open spec fn cross_decision(s: CrossTimeframe, f: FeatureRow, p: Option<Position>) -> Option<
    (SignalDirection, Dec),
> {
    if next_bar(s.bars_since_signal) < s.cooldown || has_open_position(p) || f.atr_14 is None {
        None
    } else {
        disagreement_spec(s, f)
    }
}

/// `min(0.5 + disagreement / 100, 0.8)`.
pub open spec fn cross_confidence(disagreement: Dec) -> Option<Dec> {
    match decimal::add_spec(
        Some(decimal::dec_lit(5, 1)),
        decimal::div_spec(Some(disagreement), Some(decimal::dec_lit(100, 0))),
    ) {
        Some(c) => Some(decimal::dec_min(c, decimal::dec_lit(8, 1))),
        None => None,
    }
}

pub open spec fn cross_with_bars(s: CrossTimeframe, bars: u32) -> CrossTimeframe {
    CrossTimeframe { bars_since_signal: bars, ..s }
}

impl CrossTimeframe {
    /// Builds the strategy from its parameters (defaults: disagreement 15,
    /// ATR multipliers 2 and 3, cooldown 5).
    pub fn new(params: &Vec<(String, ParamValue)>) -> (r: Self)
        ensures
            r.name@ == param_text(params@, "name"@, "cross_timeframe"@),
            r.min_disagreement == param_dec(params@, "min_disagreement"@, decimal::dec_lit(15, 0)),
            r.higher_tf_rsi is None,
            r.higher_tf_trend is None,
            r.higher_tf_macd is None,
            r.atr_stop_multiplier == param_dec(params@, "atr_stop_multiplier"@, decimal::dec_lit(2, 0)),
            r.atr_target_multiplier == param_dec(
                params@,
                "atr_target_multiplier"@,
                decimal::dec_lit(3, 0),
            ),
            r.cooldown == param_u64(params@, "cooldown"@, 5) as u32,
            r.bars_since_signal == 0,
    {
        CrossTimeframe {
            name: get_text(params, "name", "cross_timeframe"),
            min_disagreement: get_dec(params, "min_disagreement", lit_dec(15, 0)),
            higher_tf_rsi: None,
            higher_tf_trend: None,
            higher_tf_macd: None,
            atr_stop_multiplier: get_dec(params, "atr_stop_multiplier", lit_dec(2, 0)),
            atr_target_multiplier: get_dec(params, "atr_target_multiplier", lit_dec(3, 0)),
            cooldown: get_u64(params, "cooldown", 5) as u32,
            bars_since_signal: 0,
        }
    }

    /// Takes the higher timeframe's RSI, trend strength and MACD (when a
    /// higher-timeframe candle closes).
    pub fn set_higher_tf_features(&mut self, features: &FeatureRow)
        ensures
            *final(self) == (CrossTimeframe {
                higher_tf_rsi: features.rsi_14,
                higher_tf_trend: features.trend_strength,
                higher_tf_macd: features.macd,
                ..*old(self)
            }),
    {
        self.higher_tf_rsi = features.rsi_14;
        self.higher_tf_trend = features.trend_strength;
        self.higher_tf_macd = features.macd;
    }

    /// The disagreement between the primary timeframe (`lower_features`) and
    /// the higher one: the direction to take and the RSI gap.
    pub fn detect_disagreement(&self, lower_features: &FeatureRow) -> (r: Option<(SignalDirection, Dec)>)
        ensures
            r == disagreement_spec(*self, *lower_features),
    {
        let lower = match lower_features.rsi_14 {
            Some(v) => v,
            None => return None,
        };
        let higher = match self.higher_tf_rsi {
            Some(v) => v,
            None => return None,
        };
        let trend = match self.higher_tf_trend {
            Some(v) => v,
            None => return None,
        };
        let diff = match lower.sub(higher) {
            Some(v) => v,
            None => return None,
        };
        let gap = diff.abs();
        if gap.lt(&self.min_disagreement) {
            return None;
        }
        let one = lit_dec(1, 0);
        if trend.gt(&one) && lower.lt(&lit_dec(40, 0)) {
            Some((SignalDirection::Long, gap))
        } else if trend.lt(&one.neg()) && lower.gt(&lit_dec(60, 0)) {
            Some((SignalDirection::Short, gap))
        } else {
            None
        }
    }
}

impl Strategy for CrossTimeframe {
    open spec fn name_spec(&self) -> Seq<char> {
        self.name@
    }

    open spec fn bar_relation(
        &self,
        candle: Candle,
        features: FeatureRow,
        position: Option<Position>,
        after: Self,
        r: Option<Signal>,
    ) -> bool {
        let s0 = *self;
        let counted = next_bar(s0.bars_since_signal);
        match cross_decision(s0, features, position) {
            None => r is None && after == cross_with_bars(s0, counted),
            Some(found) => {
                let dir = found.0;
                let atr = features.atr_14->0;
                let conf = cross_confidence(found.1);
                let unc = decimal::sub_spec(Some(decimal::dec_lit(1, 0)), conf);
                let long = dir == SignalDirection::Long;
                let stop = if long {
                    below_by(candle.close, atr, s0.atr_stop_multiplier)
                } else {
                    above_by(candle.close, atr, s0.atr_stop_multiplier)
                };
                let target = if long {
                    above_by(candle.close, atr, s0.atr_target_multiplier)
                } else {
                    below_by(candle.close, atr, s0.atr_target_multiplier)
                };
                if conf is Some && unc is Some && stop is Some && target is Some {
                    &&& r is Some
                    &&& signal_is(
                        r->0,
                        s0.name@,
                        candle,
                        dir,
                        decimal::dec_lit(8, 1),
                        conf->0,
                        stop,
                        target,
                        Some(20),
                    )
                    &&& r->0.metadata.uncertainty_score == unc
                    &&& r->0.metadata.regime is None
                    &&& after == cross_with_bars(s0, 0)
                } else {
                    r is None && after == cross_with_bars(s0, counted)
                }
            },
        }
    }

    open spec fn reset_relation(&self, after: Self) -> bool {
        &&& after == (CrossTimeframe {
            bars_since_signal: 0,
            higher_tf_rsi: None,
            higher_tf_trend: None,
            higher_tf_macd: None,
            ..*self
        })
    }

    fn name(&self) -> (r: &str)
        ensures
            r@ == self.name@,
    {
        self.name.as_str()
    }

    fn on_bar(
        &mut self,
        candle: &Candle,
        features: &FeatureRow,
        current_position: Option<&Position>,
    ) -> (r: Option<Signal>)

    {
        self.bars_since_signal = count_bar(self.bars_since_signal);
        if self.bars_since_signal < self.cooldown {
            return None;
        }
        let (has_position, _) = position_state(current_position);
        if has_position {
            return None;
        }
        let atr = match features.atr_14 {
            Some(v) => v,
            None => return None,
        };
        let (direction, disagreement) = match self.detect_disagreement(features) {
            Some(found) => found,
            None => return None,
        };
        let conf = match decimal::add_opt(
            Some(lit_dec(5, 1)),
            decimal::div_opt(Some(disagreement), Some(lit_dec(100, 0))),
        ) {
            Some(c) => Some(c.min(lit_dec(8, 1))),
            None => None,
        };
        let unc = decimal::sub_opt(Some(lit_dec(1, 0)), conf);
        let long = direction == SignalDirection::Long;
        let (stop, target) = if long {
            (
                decimal::sub_opt(Some(candle.close), atr.mul(self.atr_stop_multiplier)),
                decimal::add_opt(Some(candle.close), atr.mul(self.atr_target_multiplier)),
            )
        } else {
            (
                decimal::add_opt(Some(candle.close), atr.mul(self.atr_stop_multiplier)),
                decimal::sub_opt(Some(candle.close), atr.mul(self.atr_target_multiplier)),
            )
        };
        let confidence = match conf {
            Some(c) => c,
            None => return None,
        };
        if unc.is_none() || stop.is_none() || target.is_none() {
            return None;
        }
        self.bars_since_signal = 0;
        let mut inputs: Vec<(String, String)> = Vec::new();
        match features.rsi_14 {
            Some(v) => inputs.push(input("lower_rsi", v.to_string())),
            None => {},
        }
        match self.higher_tf_rsi {
            Some(v) => inputs.push(input("higher_rsi", v.to_string())),
            None => {},
        }
        match self.higher_tf_trend {
            Some(v) => inputs.push(input("higher_trend", v.to_string())),
            None => {},
        }
        inputs.push(input("disagreement", disagreement.to_string()));
        inputs.push(input("reason", String::from_str("cross_timeframe_disagreement")));
        Some(
            make_signal(
                &self.name,
                candle,
                direction,
                lit_dec(8, 1),
                confidence,
                stop,
                target,
                Some(20),
                metadata(inputs, unc, None),
            ),
        )
    }

    /// What `params` lists for this state.
    open spec fn params_relation(&self, r: Seq<(String, ParamValue)>) -> bool {
        &&& (r.len() == 1)
        &&& (r[0].0@ == "min_disagreement"@)
        &&& (r[0].1 matches ParamValue::Text(t)
            && t@ == decimal::decimal_display(self.min_disagreement))
    }

    fn params(&self) -> (r: Vec<(String, ParamValue)>)
        ensures
            r@.len() == 1,
            r@[0].0@ == "min_disagreement"@,
            r@[0].1 matches ParamValue::Text(t) && t@ == decimal::decimal_display(self.min_disagreement),
    {
        let mut m: Vec<(String, ParamValue)> = Vec::new();
        m.push(
            (String::from_str("min_disagreement"), ParamValue::Text(self.min_disagreement.to_string())),
        );
        m
    }

    fn reset(&mut self)

    {
        self.bars_since_signal = 0;
        self.higher_tf_rsi = None;
        self.higher_tf_trend = None;
        self.higher_tf_macd = None;
    }

    fn cooldown_bars(&self) -> (r: u32)
        ensures
            r == self.cooldown,
    {
        self.cooldown
    }
}

/// Cross-timeframe entries protect themselves: with a positive ATR, positive
/// multipliers and exact decimal offsets, a long's stop is below the entry
/// and its target above, and a short's stop is above the entry and its
/// target below.
pub proof fn law_cross_timeframe_levels_bracket_entry(
    s0: CrossTimeframe,
    candle: Candle,
    features: FeatureRow,
    position: Option<Position>,
    after: CrossTimeframe,
    sig: Signal,
)
    requires
        s0.bar_relation(candle, features, position, after, Some(sig)),
        features.atr_14 matches Some(atr) && atr@ > 0,
        s0.atr_stop_multiplier@ > 0,
        exact_offset(candle.close, features.atr_14->0, s0.atr_stop_multiplier),
        s0.atr_target_multiplier@ > 0,
        exact_offset(candle.close, features.atr_14->0, s0.atr_target_multiplier),
    ensures
        stop_on_loss_side(sig),
        levels_bracket_entry(sig),
{
    let atr = features.atr_14->0;
    lemma_offset_sides(candle.close, atr, s0.atr_stop_multiplier);
    lemma_offset_sides(candle.close, atr, s0.atr_target_multiplier);
}

} // verus!
