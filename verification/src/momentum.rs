//! Momentum continuation: entries in the direction of strong recent
//! returns confirmed by RSI.
use vstd::prelude::*;
use crate::decimal::{self, Dec};
use crate::config::ParamValue;
use crate::features::FeatureRow;
use crate::types::{Candle, Position, Signal, SignalDirection};
use crate::strategy::{
    Strategy, lit_dec, get_u64, get_dec, get_bool, get_text, make_signal, metadata, input,
    position_state, param_u64, param_dec, param_bool, param_text, has_open_position,
    deref_position, signal_is, next_bar, count_bar, below_by, above_by,
    exact_offset, lemma_offset_sides, levels_bracket_entry, stop_on_loss_side,
};

verus! {

/// Momentum strategy.
#[derive(Clone, Debug)]
pub struct Momentum {
    pub name: String,
    pub return_threshold_pct: Dec,
    pub rsi_confirm_min: Dec,
    pub rsi_confirm_max: Dec,
    pub atr_stop_multiplier: Dec,
    pub bars_since_signal: u32,
    pub cooldown: u32,
    pub allow_short: bool,
}

/// `100 - x`.
pub open spec fn hundred_minus(x: Dec) -> Option<Dec> {
    decimal::sub_spec(Some(decimal::dec_lit(100, 0)), Some(x))
}

/// Whether the short-side RSI band is defined and contains `rsi`.
pub open spec fn short_band(s: Momentum, rsi: Dec) -> bool {
    match (hundred_minus(s.rsi_confirm_min), hundred_minus(s.rsi_confirm_max)) {
        (Some(hi), Some(lo)) => rsi@ < hi@ && rsi@ > lo@,
        _ => false,
    }
}

/// The direction of the strategy's signal on this bar (`None`: none).
pub open spec fn momentum_decision(s: Momentum, f: FeatureRow, p: Option<Position>) -> Option<
    SignalDirection,
> {
    if f.return_5 is None || f.rsi_14 is None || f.atr_14 is None || next_bar(s.bars_since_signal)
        < s.cooldown || has_open_position(p) {
        None
    } else {
        let r5 = f.return_5->0;
        let rsi = f.rsi_14->0;
        if r5@ > s.return_threshold_pct@ && rsi@ > s.rsi_confirm_min@ && rsi@ < s.rsi_confirm_max@ {
            Some(SignalDirection::Long)
        } else if s.allow_short && r5@ < -s.return_threshold_pct@ && short_band(s, rsi) {
            Some(SignalDirection::Short)
        } else {
            None
        }
    }
}

/// `0.6 + min(return_5 - threshold, 5) / 50`.
pub open spec fn momentum_confidence(r5: Dec, threshold: Dec) -> Option<Dec> {
    match decimal::sub_spec(Some(r5), Some(threshold)) {
        Some(excess) => decimal::add_spec(
            Some(decimal::dec_lit(6, 1)),
            decimal::div_spec(
                Some(decimal::dec_min(excess, decimal::dec_lit(5, 0))),
                Some(decimal::dec_lit(50, 0)),
            ),
        ),
        None => None,
    }
}

pub open spec fn momentum_with_bars(s: Momentum, bars: u32) -> Momentum {
    Momentum { bars_since_signal: bars, ..s }
}

impl Momentum {
    /// Builds the strategy from its parameters (defaults: 2% return
    /// threshold, RSI band 55..80, ATR stop multiplier 2.5, cooldown 5).
    pub fn new(params: &Vec<(String, ParamValue)>) -> (r: Self)
        ensures
            r.name@ == param_text(params@, "name"@, "momentum"@),
            r.return_threshold_pct == param_dec(
                params@,
                "return_threshold_pct"@,
                decimal::dec_lit(2, 0),
            ),
            r.rsi_confirm_min == param_dec(params@, "rsi_confirm_min"@, decimal::dec_lit(55, 0)),
            r.rsi_confirm_max == param_dec(params@, "rsi_confirm_max"@, decimal::dec_lit(80, 0)),
            r.atr_stop_multiplier == param_dec(
                params@,
                "atr_stop_multiplier"@,
                decimal::dec_lit(25, 1),
            ),
            r.bars_since_signal == 0,
            r.cooldown == param_u64(params@, "cooldown"@, 5) as u32,
            r.allow_short == param_bool(params@, "allow_short"@, false),
    {
        Momentum {
            name: get_text(params, "name", "momentum"),
            return_threshold_pct: get_dec(params, "return_threshold_pct", lit_dec(2, 0)),
            rsi_confirm_min: get_dec(params, "rsi_confirm_min", lit_dec(55, 0)),
            rsi_confirm_max: get_dec(params, "rsi_confirm_max", lit_dec(80, 0)),
            atr_stop_multiplier: get_dec(params, "atr_stop_multiplier", lit_dec(25, 1)),
            bars_since_signal: 0,
            cooldown: get_u64(params, "cooldown", 5) as u32,
            allow_short: get_bool(params, "allow_short", false),
        }
    }
}

impl Strategy for Momentum {
    open spec fn name_spec(&self) -> Seq<char> {
        self.name@
    }

    open spec fn bar_relation(
        &self,
        candle: Candle,
        features: FeatureRow,
        position: Option<Position>,
        after: Self,
        r: Option<Signal>,
    ) -> bool {
        let s0 = *self;
        let counted = next_bar(s0.bars_since_signal);
        let p = position;
        let atr = features.atr_14->0;
        match momentum_decision(s0, features, p) {
            None => r is None && after == momentum_with_bars(s0, counted),
            Some(SignalDirection::Long) => {
                let conf = momentum_confidence(
                    features.return_5->0,
                    s0.return_threshold_pct,
                );
                let stop = below_by(candle.close, atr, s0.atr_stop_multiplier);
                let target = above_by(candle.close, atr, decimal::dec_lit(4, 0));
                let unc = decimal::sub_spec(Some(decimal::dec_lit(1, 0)), conf);
                if conf is Some && stop is Some && target is Some && unc is Some {
                    &&& r is Some
                    &&& signal_is(
                        r->0,
                        s0.name@,
                        candle,
                        SignalDirection::Long,
                        decimal::dec_lit(1, 0),
                        decimal::dec_min(conf->0, decimal::dec_lit(85, 2)),
                        stop,
                        target,
                        Some(40),
                    )
                    &&& r->0.metadata.uncertainty_score == unc
                    &&& r->0.metadata.regime is Some
                    &&& r->0.metadata.regime->0@ == "momentum_up"@
                    &&& after == momentum_with_bars(s0, 0)
                } else {
                    r is None && after == momentum_with_bars(s0, counted)
                }
            },
            Some(_) => {
                let stop = above_by(candle.close, atr, s0.atr_stop_multiplier);
                let target = below_by(candle.close, atr, decimal::dec_lit(4, 0));
                if stop is Some && target is Some {
                    &&& r is Some
                    &&& signal_is(
                        r->0,
                        s0.name@,
                        candle,
                        SignalDirection::Short,
                        decimal::dec_lit(1, 0),
                        decimal::dec_lit(6, 1),
                        stop,
                        target,
                        Some(40),
                    )
                    &&& r->0.metadata.uncertainty_score == Some(decimal::dec_lit(4, 1))
                    &&& r->0.metadata.regime is Some
                    &&& r->0.metadata.regime->0@ == "momentum_down"@
                    &&& after == momentum_with_bars(s0, 0)
                } else {
                    r is None && after == momentum_with_bars(s0, counted)
                }
            },
        }
    }

    open spec fn reset_relation(&self, after: Self) -> bool {
        &&& after == momentum_with_bars(*self, 0)
    }

    fn name(&self) -> (r: &str)
        ensures
            r@ == self.name@,
    {
        self.name.as_str()
    }

    fn on_bar(
        &mut self,
        candle: &Candle,
        features: &FeatureRow,
        current_position: Option<&Position>,
    ) -> (r: Option<Signal>)

    {
        self.bars_since_signal = count_bar(self.bars_since_signal);
        let return_5 = match features.return_5 {
            Some(v) => v,
            None => return None,
        };
        let rsi = match features.rsi_14 {
            Some(v) => v,
            None => return None,
        };
        let atr = match features.atr_14 {
            Some(v) => v,
            None => return None,
        };
        if self.bars_since_signal < self.cooldown {
            return None;
        }
        let (has_position, _) = position_state(current_position);
        if has_position {
            return None;
        }
        if return_5.gt(&self.return_threshold_pct) && rsi.gt(&self.rsi_confirm_min) && rsi.lt(
            &self.rsi_confirm_max,
        ) {
            let conf = match return_5.sub(self.return_threshold_pct) {
                Some(excess) => decimal::add_opt(
                    Some(lit_dec(6, 1)),
                    excess.min(lit_dec(5, 0)).div(lit_dec(50, 0)),
                ),
                None => None,
            };
            let stop = decimal::sub_opt(Some(candle.close), atr.mul(self.atr_stop_multiplier));
            let target = decimal::add_opt(Some(candle.close), atr.mul(lit_dec(4, 0)));
            let unc = decimal::sub_opt(Some(lit_dec(1, 0)), conf);
            match (conf, stop, target, unc) {
                (Some(cf), Some(_), Some(_), Some(u)) => {
                    self.bars_since_signal = 0;
                    let mut inputs: Vec<(String, String)> = Vec::new();
                    inputs.push(input("return_5", return_5.to_string()));
                    inputs.push(input("rsi", rsi.to_string()));
                    inputs.push(input("reason", String::from_str("momentum_long")));
                    return Some(
                        make_signal(
                            &self.name,
                            candle,
                            SignalDirection::Long,
                            lit_dec(1, 0),
                            cf.min(lit_dec(85, 2)),
                            stop,
                            target,
                            Some(40),
                            metadata(inputs, Some(u), Some("momentum_up")),
                        ),
                    );
                },
                _ => return None,
            }
        }
        let in_band = match (
            lit_dec(100, 0).sub(self.rsi_confirm_min),
            lit_dec(100, 0).sub(self.rsi_confirm_max),
        ) {
            (Some(hi), Some(lo)) => rsi.lt(&hi) && rsi.gt(&lo),
            _ => false,
        };
        if self.allow_short && return_5.lt(&self.return_threshold_pct.neg()) && in_band {
            let stop = decimal::add_opt(Some(candle.close), atr.mul(self.atr_stop_multiplier));
            let target = decimal::sub_opt(Some(candle.close), atr.mul(lit_dec(4, 0)));
            if stop.is_none() || target.is_none() {
                return None;
            }
            self.bars_since_signal = 0;
            let mut inputs: Vec<(String, String)> = Vec::new();
            inputs.push(input("return_5", return_5.to_string()));
            inputs.push(input("rsi", rsi.to_string()));
            inputs.push(input("reason", String::from_str("momentum_short")));
            return Some(
                make_signal(
                    &self.name,
                    candle,
                    SignalDirection::Short,
                    lit_dec(1, 0),
                    lit_dec(6, 1),
                    stop,
                    target,
                    Some(40),
                    metadata(inputs, Some(lit_dec(4, 1)), Some("momentum_down")),
                ),
            );
        }
        None
    }

    /// What `params` lists for this state.
    open spec fn params_relation(&self, r: Seq<(String, ParamValue)>) -> bool {
        &&& (r.len() == 1)
        &&& (r[0].0@ == "return_threshold_pct"@)
        &&& (r[0].1 matches ParamValue::Text(t)
            && t@ == decimal::decimal_display(self.return_threshold_pct))
    }

    fn params(&self) -> (r: Vec<(String, ParamValue)>)
        ensures
            r@.len() == 1,
            r@[0].0@ == "return_threshold_pct"@,
            r@[0].1 matches ParamValue::Text(t) && t@ == decimal::decimal_display(
                self.return_threshold_pct,
            ),
    {
        let mut m: Vec<(String, ParamValue)> = Vec::new();
        m.push(
            (
                String::from_str("return_threshold_pct"),
                ParamValue::Text(self.return_threshold_pct.to_string()),
            ),
        );
        m
    }

    fn reset(&mut self)

    {
        self.bars_since_signal = 0;
    }

    fn cooldown_bars(&self) -> (r: u32)
        ensures
            r == self.cooldown,
    {
        self.cooldown
    }
}

/// Momentum entries protect themselves: with a positive ATR, positive
/// multipliers and exact decimal offsets, a long's stop is below the entry
/// and its target above, and a short's stop is above the entry and its
/// target below.
pub proof fn law_momentum_levels_bracket_entry(
    s0: Momentum,
    candle: Candle,
    features: FeatureRow,
    position: Option<Position>,
    after: Momentum,
    sig: Signal,
)
    requires
        s0.bar_relation(candle, features, position, after, Some(sig)),
        features.atr_14 matches Some(atr) && atr@ > 0,
        s0.atr_stop_multiplier@ > 0,
        exact_offset(candle.close, features.atr_14->0, s0.atr_stop_multiplier),
        exact_offset(candle.close, features.atr_14->0, decimal::dec_lit(4, 0)),
    ensures
        stop_on_loss_side(sig),
        levels_bracket_entry(sig),
{
    let atr = features.atr_14->0;
    lemma_offset_sides(candle.close, atr, s0.atr_stop_multiplier);
    decimal::lemma_lit(4, 0);
    decimal::lemma_pow10_28();
    lemma_offset_sides(candle.close, atr, decimal::dec_lit(4, 0));
}

} // verus!
