//! Mean reversion: entries at the outer Bollinger bands confirmed by RSI,
//! exits when the close returns to the middle band.
use vstd::prelude::*;
use crate::decimal::{self, Dec};
use crate::config::ParamValue;
use crate::features::FeatureRow;
use crate::types::{Candle, Position, PositionSide, Signal, SignalDirection};
use crate::strategy::{
    Strategy, lit_dec, get_u64, get_dec, get_bool, get_text, make_signal, metadata, input,
    position_state, param_u64, param_dec, param_bool, param_text, has_open_position, side_of,
    deref_position, signal_is, next_bar, count_bar, below_by, above_by,
    exact_offset, lemma_offset_sides, levels_bracket_entry, stop_on_loss_side,
};

verus! {

/// Mean-reversion strategy on Bollinger bands and RSI.
#[derive(Clone, Debug)]
pub struct MeanReversion {
    pub name: String,
    pub rsi_overbought: Dec,
    pub rsi_oversold: Dec,
    pub bb_entry_pct: Dec,
    pub atr_stop_multiplier: Dec,
    pub bars_since_signal: u32,
    pub cooldown: u32,
    pub allow_short: bool,
}

/// What the strategy decides on a bar (`None`: no signal).
pub open spec fn reversion_decision(
    s: MeanReversion,
    c: Candle,
    f: FeatureRow,
    p: Option<Position>,
) -> Option<SignalDirection> {
    if f.rsi_14 is None || f.bb_upper is None || f.bb_lower is None || f.bb_middle is None
        || f.atr_14 is None {
        None
    } else if next_bar(s.bars_since_signal) < s.cooldown {
        None
    } else {
        let rsi = f.rsi_14->0;
        let middle = f.bb_middle->0;
        if has_open_position(p) {
            let exit = match side_of(p) {
                PositionSide::Long => c.close@ >= middle@,
                PositionSide::Short => c.close@ <= middle@,
                PositionSide::Flat => false,
            };
            if exit {
                Some(SignalDirection::Flat)
            } else {
                None
            }
        } else if c.close@ <= f.bb_lower->0@ && rsi@ < s.rsi_oversold@ {
            Some(SignalDirection::Long)
        } else if s.allow_short && c.close@ >= f.bb_upper->0@ && rsi@ > s.rsi_overbought@ {
            Some(SignalDirection::Short)
        } else {
            None
        }
    }
}

/// `0.5 + gap / 100 * 0.3`.
pub open spec fn reversion_confidence(gap: Option<Dec>) -> Option<Dec> {
    decimal::add_spec(
        Some(decimal::dec_lit(5, 1)),
        decimal::mul_spec(
            decimal::div_spec(gap, Some(decimal::dec_lit(100, 0))),
            Some(decimal::dec_lit(3, 1)),
        ),
    )
}

pub open spec fn reversion_with_bars(s: MeanReversion, bars: u32) -> MeanReversion {
    MeanReversion { bars_since_signal: bars, ..s }
}

/// The entry outcome: with confidence `conf` and stop `stop`, either a
/// signal (when every quantity is defined) or nothing.
pub open spec fn reversion_entry_ok(
    r: Option<Signal>,
    s0: MeanReversion,
    c: Candle,
    f: FeatureRow,
    direction: SignalDirection,
    conf: Option<Dec>,
    stop: Option<Dec>,
    regime: Seq<char>,
) -> bool {
    let unc = decimal::sub_spec(Some(decimal::dec_lit(1, 0)), conf);
    if conf is Some && stop is Some && unc is Some {
        &&& r is Some
        &&& signal_is(
            r->0,
            s0.name@,
            c,
            direction,
            decimal::dec_lit(1, 0),
            decimal::dec_min(conf->0, decimal::dec_lit(85, 2)),
            stop,
            f.bb_middle,
            Some(20),
        )
        &&& r->0.metadata.uncertainty_score == unc
        &&& r->0.metadata.regime is Some
        &&& r->0.metadata.regime->0@ == regime
    } else {
        r is None
    }
}

impl MeanReversion {
    /// Builds the strategy from its parameters (defaults: RSI levels 75/25,
    /// band entry 0.95, ATR stop multiplier 1.5, cooldown 3, long only).
    pub fn new(params: &Vec<(String, ParamValue)>) -> (r: Self)
        ensures
            r.name@ == param_text(params@, "name"@, "mean_reversion"@),
            r.rsi_overbought == param_dec(params@, "rsi_overbought"@, decimal::dec_lit(75, 0)),
            r.rsi_oversold == param_dec(params@, "rsi_oversold"@, decimal::dec_lit(25, 0)),
            r.bb_entry_pct == param_dec(params@, "bb_entry_pct"@, decimal::dec_lit(95, 2)),
            r.atr_stop_multiplier == param_dec(
                params@,
                "atr_stop_multiplier"@,
                decimal::dec_lit(15, 1),
            ),
            r.bars_since_signal == 0,
            r.cooldown == param_u64(params@, "cooldown"@, 3) as u32,
            r.allow_short == param_bool(params@, "allow_short"@, false),
    {
        MeanReversion {
            name: get_text(params, "name", "mean_reversion"),
            rsi_overbought: get_dec(params, "rsi_overbought", lit_dec(75, 0)),
            rsi_oversold: get_dec(params, "rsi_oversold", lit_dec(25, 0)),
            bb_entry_pct: get_dec(params, "bb_entry_pct", lit_dec(95, 2)),
            atr_stop_multiplier: get_dec(params, "atr_stop_multiplier", lit_dec(15, 1)),
            bars_since_signal: 0,
            cooldown: get_u64(params, "cooldown", 3) as u32,
            allow_short: get_bool(params, "allow_short", false),
        }
    }
}

impl Strategy for MeanReversion {
    open spec fn name_spec(&self) -> Seq<char> {
        self.name@
    }

    open spec fn bar_relation(
        &self,
        candle: Candle,
        features: FeatureRow,
        position: Option<Position>,
        after: Self,
        r: Option<Signal>,
    ) -> bool {
        let s0 = *self;
        let counted = next_bar(s0.bars_since_signal);
        let p = position;
        let rsi = features.rsi_14->0;
        let atr = features.atr_14->0;
        match reversion_decision(s0, candle, features, p) {
            None => r is None && after == reversion_with_bars(s0, counted),
            Some(SignalDirection::Flat) => {
                &&& r is Some
                &&& signal_is(
                    r->0,
                    s0.name@,
                    candle,
                    SignalDirection::Flat,
                    decimal::dec_lit(7, 1),
                    decimal::dec_lit(65, 2),
                    None,
                    None,
                    None,
                )
                &&& r->0.metadata.regime is Some
                &&& r->0.metadata.regime->0@ == "ranging"@
                &&& after == reversion_with_bars(s0, 0)
            },
            Some(SignalDirection::Long) => {
                let conf = reversion_confidence(
                    decimal::sub_spec(Some(s0.rsi_oversold), Some(rsi)),
                );
                let stop = below_by(candle.close, atr, s0.atr_stop_multiplier);
                &&& reversion_entry_ok(
                    r,
                    s0,
                    candle,
                    features,
                    SignalDirection::Long,
                    conf,
                    stop,
                    "oversold"@,
                )
                &&& after == reversion_with_bars(
                    s0,
                    if r is Some {
                        0
                    } else {
                        counted
                    },
                )
            },
            Some(_) => {
                let conf = reversion_confidence(
                    decimal::sub_spec(Some(rsi), Some(s0.rsi_overbought)),
                );
                let stop = above_by(candle.close, atr, s0.atr_stop_multiplier);
                &&& reversion_entry_ok(
                    r,
                    s0,
                    candle,
                    features,
                    SignalDirection::Short,
                    conf,
                    stop,
                    "overbought"@,
                )
                &&& after == reversion_with_bars(
                    s0,
                    if r is Some {
                        0
                    } else {
                        counted
                    },
                )
            },
        }
    }

    open spec fn reset_relation(&self, after: Self) -> bool {
        &&& after == reversion_with_bars(*self, 0)
    }

    fn name(&self) -> (r: &str)
        ensures
            r@ == self.name@,
    {
        self.name.as_str()
    }

    fn on_bar(
        &mut self,
        candle: &Candle,
        features: &FeatureRow,
        current_position: Option<&Position>,
    ) -> (r: Option<Signal>)

    {
        self.bars_since_signal = count_bar(self.bars_since_signal);
        let rsi = match features.rsi_14 {
            Some(v) => v,
            None => return None,
        };
        let bb_upper = match features.bb_upper {
            Some(v) => v,
            None => return None,
        };
        let bb_lower = match features.bb_lower {
            Some(v) => v,
            None => return None,
        };
        let bb_middle = match features.bb_middle {
            Some(v) => v,
            None => return None,
        };
        let atr = match features.atr_14 {
            Some(v) => v,
            None => return None,
        };
        if self.bars_since_signal < self.cooldown {
            return None;
        }
        let (has_position, position_side) = position_state(current_position);
        if has_position {
            let exit = match position_side {
                PositionSide::Long => candle.close.ge(&bb_middle),
                PositionSide::Short => candle.close.le(&bb_middle),
                PositionSide::Flat => false,
            };
            if exit {
                self.bars_since_signal = 0;
                let mut inputs: Vec<(String, String)> = Vec::new();
                inputs.push(input("reason", String::from_str("mean_reversion_exit")));
                inputs.push(input("rsi", rsi.to_string()));
                return Some(
                    make_signal(
                        &self.name,
                        candle,
                        SignalDirection::Flat,
                        lit_dec(7, 1),
                        lit_dec(65, 2),
                        None,
                        None,
                        None,
                        metadata(inputs, None, Some("ranging")),
                    ),
                );
            }
            return None;
        }
        if candle.close.le(&bb_lower) && rsi.lt(&self.rsi_oversold) {
            let conf = decimal::add_opt(
                Some(lit_dec(5, 1)),
                decimal::mul_opt(
                    decimal::div_opt(self.rsi_oversold.sub(rsi), Some(lit_dec(100, 0))),
                    Some(lit_dec(3, 1)),
                ),
            );
            let stop = decimal::sub_opt(Some(candle.close), atr.mul(self.atr_stop_multiplier));
            let unc = decimal::sub_opt(Some(lit_dec(1, 0)), conf);
            match (conf, stop, unc) {
                (Some(cf), Some(_), Some(u)) => {
                    self.bars_since_signal = 0;
                    let mut inputs: Vec<(String, String)> = Vec::new();
                    inputs.push(input("rsi", rsi.to_string()));
                    inputs.push(input("bb_lower", bb_lower.to_string()));
                    inputs.push(input("reason", String::from_str("mean_reversion_long")));
                    return Some(
                        make_signal(
                            &self.name,
                            candle,
                            SignalDirection::Long,
                            lit_dec(1, 0),
                            cf.min(lit_dec(85, 2)),
                            stop,
                            Some(bb_middle),
                            Some(20),
                            metadata(inputs, Some(u), Some("oversold")),
                        ),
                    );
                },
                _ => return None,
            }
        }
        if self.allow_short && candle.close.ge(&bb_upper) && rsi.gt(&self.rsi_overbought) {
            let conf = decimal::add_opt(
                Some(lit_dec(5, 1)),
                decimal::mul_opt(
                    decimal::div_opt(rsi.sub(self.rsi_overbought), Some(lit_dec(100, 0))),
                    Some(lit_dec(3, 1)),
                ),
            );
            let stop = decimal::add_opt(Some(candle.close), atr.mul(self.atr_stop_multiplier));
            let unc = decimal::sub_opt(Some(lit_dec(1, 0)), conf);
            match (conf, stop, unc) {
                (Some(cf), Some(_), Some(u)) => {
                    self.bars_since_signal = 0;
                    let mut inputs: Vec<(String, String)> = Vec::new();
                    inputs.push(input("rsi", rsi.to_string()));
                    inputs.push(input("bb_upper", bb_upper.to_string()));
                    inputs.push(input("reason", String::from_str("mean_reversion_short")));
                    return Some(
                        make_signal(
                            &self.name,
                            candle,
                            SignalDirection::Short,
                            lit_dec(1, 0),
                            cf.min(lit_dec(85, 2)),
                            stop,
                            Some(bb_middle),
                            Some(20),
                            metadata(inputs, Some(u), Some("overbought")),
                        ),
                    );
                },
                _ => return None,
            }
        }
        None
    }

    /// What `params` lists for this state.
    open spec fn params_relation(&self, r: Seq<(String, ParamValue)>) -> bool {
        &&& (r.len() == 2)
        &&& (r[0].0@ == "rsi_overbought"@)
        &&& (r[1].0@ == "rsi_oversold"@)
        &&& (r[0].1 matches ParamValue::Text(t)
            && t@ == decimal::decimal_display(self.rsi_overbought))
        &&& (r[1].1 matches ParamValue::Text(t)
            && t@ == decimal::decimal_display(self.rsi_oversold))
    }

    fn params(&self) -> (r: Vec<(String, ParamValue)>)
        ensures
            r@.len() == 2,
            r@[0].0@ == "rsi_overbought"@,
            r@[1].0@ == "rsi_oversold"@,
            r@[0].1 matches ParamValue::Text(t) && t@ == decimal::decimal_display(
                self.rsi_overbought,
            ),
            r@[1].1 matches ParamValue::Text(t) && t@ == decimal::decimal_display(
                self.rsi_oversold,
            ),
    {
        let mut m: Vec<(String, ParamValue)> = Vec::new();
        m.push(
            (String::from_str("rsi_overbought"), ParamValue::Text(self.rsi_overbought.to_string())),
        );
        m.push(
            (String::from_str("rsi_oversold"), ParamValue::Text(self.rsi_oversold.to_string())),
        );
        m
    }

    fn reset(&mut self)

    {
        self.bars_since_signal = 0;
    }

    fn cooldown_bars(&self) -> (r: u32)
        ensures
            r == self.cooldown,
    {
        self.cooldown
    }
}

/// Mean-reversion entries protect themselves: with a positive ATR, a positive
/// stop multiplier and exact decimal offsets, a long's stop is below the
/// entry and a short's stop above it.
pub proof fn law_mean_reversion_stop_on_loss_side(
    s0: MeanReversion,
    candle: Candle,
    features: FeatureRow,
    position: Option<Position>,
    after: MeanReversion,
    sig: Signal,
)
    requires
        s0.bar_relation(candle, features, position, after, Some(sig)),
        features.atr_14 matches Some(atr) && atr@ > 0,
        s0.atr_stop_multiplier@ > 0,
        exact_offset(candle.close, features.atr_14->0, s0.atr_stop_multiplier),
    ensures
        stop_on_loss_side(sig),
{
    let atr = features.atr_14->0;
    lemma_offset_sides(candle.close, atr, s0.atr_stop_multiplier);
}

} // verus!
