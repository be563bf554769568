//! Funding-rate reversion for perpetual futures: extreme positive funding
//! (longs paying shorts) is sold, extreme negative funding is bought.
use vstd::prelude::*;
use crate::decimal::{self, Dec};
use crate::config::ParamValue;
use crate::features::FeatureRow;
use crate::types::{Candle, Position, Signal, SignalDirection};
use crate::strategy::{
    Strategy, lit_dec, get_u64, get_dec, get_text, make_signal, metadata, input, position_state,
    param_u64, param_dec, param_text, has_open_position, deref_position, signal_is, next_bar,
    count_bar, below_by, above_by,
    exact_offset, lemma_offset_sides, levels_bracket_entry, stop_on_loss_side,
};

verus! {

/// Funding-rate reversion strategy.
#[derive(Clone, Debug)]
pub struct FundingRateReversion {
    pub name: String,
    pub entry_threshold: Dec,
    pub extreme_threshold: Dec,
    pub rsi_confirm_min: Dec,
    pub rsi_confirm_max: Dec,
    pub atr_stop_multiplier: Dec,
    pub atr_target_multiplier: Dec,
    pub max_hold_bars: u32,
    pub cooldown: u32,
    pub bars_since_signal: u32,
    pub current_funding_rate: Option<Dec>,
}

/// The direction of the strategy's signal on this bar (`None`: none).
pub open spec fn funding_decision(s: FundingRateReversion, f: FeatureRow, p: Option<Position>) -> Option<
    SignalDirection,
> {
    if s.current_funding_rate is None || f.rsi_14 is None || f.atr_14 is None || next_bar(
        s.bars_since_signal,
    ) < s.cooldown || has_open_position(p) {
        None
    } else {
        let funding = s.current_funding_rate->0;
        let rsi = f.rsi_14->0;
        if !(decimal::dec_abs(funding) > s.entry_threshold@) {
            None
        } else if funding@ > s.entry_threshold@ && rsi@ < s.rsi_confirm_max@ {
            Some(SignalDirection::Short)
        } else if funding@ < -s.entry_threshold@ && rsi@ > s.rsi_confirm_min@ {
            Some(SignalDirection::Long)
        } else {
            None
        }
    }
}

pub open spec fn funding_with_bars(s: FundingRateReversion, bars: u32) -> FundingRateReversion {
    FundingRateReversion { bars_since_signal: bars, ..s }
}

impl FundingRateReversion {
    /// Builds the strategy from its parameters (defaults: entry at 0.05%,
    /// extreme at 0.1%, RSI band 30..70, ATR multipliers 2 and 2.5, 24-bar
    /// holding limit, cooldown 8).
    pub fn new(params: &Vec<(String, ParamValue)>) -> (r: Self)
        ensures
            r.name@ == param_text(params@, "name"@, "funding_rate_reversion"@),
            r.entry_threshold == param_dec(params@, "entry_threshold"@, decimal::dec_lit(5, 4)),
            r.extreme_threshold == param_dec(params@, "extreme_threshold"@, decimal::dec_lit(1, 3)),
            r.rsi_confirm_min == param_dec(params@, "rsi_confirm_min"@, decimal::dec_lit(30, 0)),
            r.rsi_confirm_max == param_dec(params@, "rsi_confirm_max"@, decimal::dec_lit(70, 0)),
            r.atr_stop_multiplier == param_dec(params@, "atr_stop_multiplier"@, decimal::dec_lit(2, 0)),
            r.atr_target_multiplier == param_dec(
                params@,
                "atr_target_multiplier"@,
                decimal::dec_lit(25, 1),
            ),
            r.max_hold_bars == param_u64(params@, "max_hold_bars"@, 24) as u32,
            r.cooldown == param_u64(params@, "cooldown"@, 8) as u32,
            r.bars_since_signal == 0,
            r.current_funding_rate is None,
    {
        FundingRateReversion {
            name: get_text(params, "name", "funding_rate_reversion"),
            entry_threshold: get_dec(params, "entry_threshold", lit_dec(5, 4)),
            extreme_threshold: get_dec(params, "extreme_threshold", lit_dec(1, 3)),
            rsi_confirm_min: get_dec(params, "rsi_confirm_min", lit_dec(30, 0)),
            rsi_confirm_max: get_dec(params, "rsi_confirm_max", lit_dec(70, 0)),
            atr_stop_multiplier: get_dec(params, "atr_stop_multiplier", lit_dec(2, 0)),
            atr_target_multiplier: get_dec(params, "atr_target_multiplier", lit_dec(25, 1)),
            max_hold_bars: get_u64(params, "max_hold_bars", 24) as u32,
            cooldown: get_u64(params, "cooldown", 8) as u32,
            bars_since_signal: 0,
            current_funding_rate: None,
        }
    }

    /// Records the current funding rate.
    pub fn set_funding_rate(&mut self, rate: Dec)
        ensures
            *final(self) == (FundingRateReversion { current_funding_rate: Some(rate), ..*old(self) }),
    {
        self.current_funding_rate = Some(rate);
    }
}

impl Strategy for FundingRateReversion {
    open spec fn name_spec(&self) -> Seq<char> {
        self.name@
    }

    open spec fn bar_relation(
        &self,
        candle: Candle,
        features: FeatureRow,
        position: Option<Position>,
        after: Self,
        r: Option<Signal>,
    ) -> bool {
        let s0 = *self;
        let counted = next_bar(s0.bars_since_signal);
        let p = position;
        let atr = features.atr_14->0;
        let extreme = decimal::dec_abs(s0.current_funding_rate->0) > s0.extreme_threshold@;
        let conf = if extreme {
            decimal::dec_lit(8, 1)
        } else {
            decimal::dec_lit(65, 2)
        };
        match funding_decision(s0, features, p) {
            None => r is None && after == funding_with_bars(s0, counted),
            Some(dir) => {
                let long = dir == SignalDirection::Long;
                let stop = if long {
                    below_by(candle.close, atr, s0.atr_stop_multiplier)
                } else {
                    above_by(candle.close, atr, s0.atr_stop_multiplier)
                };
                let target = if long {
                    above_by(candle.close, atr, s0.atr_target_multiplier)
                } else {
                    below_by(candle.close, atr, s0.atr_target_multiplier)
                };
                if stop is Some && target is Some {
                    &&& r is Some
                    &&& signal_is(
                        r->0,
                        s0.name@,
                        candle,
                        dir,
                        if extreme {
                            decimal::dec_lit(1, 0)
                        } else {
                            decimal::dec_lit(7, 1)
                        },
                        conf,
                        stop,
                        target,
                        Some(s0.max_hold_bars),
                    )
                    &&& r->0.metadata.uncertainty_score is Some
                    &&& r->0.metadata.uncertainty_score->0@ == decimal::dec_lit(1, 0)@ - conf@
                    &&& r->0.metadata.regime is Some
                    &&& r->0.metadata.regime->0@ == (if long {
                        "funding_extreme_negative"@
                    } else {
                        "funding_extreme_positive"@
                    })
                    &&& after == funding_with_bars(s0, 0)
                } else {
                    r is None && after == funding_with_bars(s0, counted)
                }
            },
        }
    }

    open spec fn reset_relation(&self, after: Self) -> bool {
        &&& after == (FundingRateReversion {
            bars_since_signal: 0,
            current_funding_rate: None,
            ..*self
        })
    }

    fn name(&self) -> (r: &str)
        ensures
            r@ == self.name@,
    {
        self.name.as_str()
    }

    fn on_bar(
        &mut self,
        candle: &Candle,
        features: &FeatureRow,
        current_position: Option<&Position>,
    ) -> (r: Option<Signal>)

    {
        self.bars_since_signal = count_bar(self.bars_since_signal);
        let funding = match self.current_funding_rate {
            Some(v) => v,
            None => return None,
        };
        let rsi = match features.rsi_14 {
            Some(v) => v,
            None => return None,
        };
        let atr = match features.atr_14 {
            Some(v) => v,
            None => return None,
        };
        if self.bars_since_signal < self.cooldown {
            return None;
        }
        let (has_position, _) = position_state(current_position);
        if has_position {
            return None;
        }
        let magnitude = funding.abs();
        let is_extreme = magnitude.gt(&self.extreme_threshold);
        if !magnitude.gt(&self.entry_threshold) {
            return None;
        }
        let conf = if is_extreme {
            lit_dec(8, 1)
        } else {
            lit_dec(65, 2)
        };
        let strength = if is_extreme {
            lit_dec(1, 0)
        } else {
            lit_dec(7, 1)
        };
        proof {
            decimal::lemma_pow10_28();
            reveal_with_fuel(decimal::pow10, 29);
        }
        let unc = crate::strategy::sub_exact(lit_dec(1, 0), conf);
        let short = funding.gt(&self.entry_threshold) && rsi.lt(&self.rsi_confirm_max);
        let long = !short && funding.lt(&self.entry_threshold.neg()) && rsi.gt(&self.rsi_confirm_min);
        if !short && !long {
            return None;
        }
        let (stop, target) = if short {
            (
                decimal::add_opt(Some(candle.close), atr.mul(self.atr_stop_multiplier)),
                decimal::sub_opt(Some(candle.close), atr.mul(self.atr_target_multiplier)),
            )
        } else {
            (
                decimal::sub_opt(Some(candle.close), atr.mul(self.atr_stop_multiplier)),
                decimal::add_opt(Some(candle.close), atr.mul(self.atr_target_multiplier)),
            )
        };
        if stop.is_none() || target.is_none() {
            return None;
        }
        self.bars_since_signal = 0;
        let mut inputs: Vec<(String, String)> = Vec::new();
        inputs.push(input("funding_rate", funding.to_string()));
        inputs.push(input("rsi", rsi.to_string()));
        inputs.push(
            input(
                "is_extreme",
                String::from_str(
                    if is_extreme {
                        "true"
                    } else {
                        "false"
                    },
                ),
            ),
        );
        if short {
            inputs.push(input("reason", String::from_str("funding_rate_short_reversion")));
            Some(
                make_signal(
                    &self.name,
                    candle,
                    SignalDirection::Short,
                    strength,
                    conf,
                    stop,
                    target,
                    Some(self.max_hold_bars),
                    metadata(inputs, Some(unc), Some("funding_extreme_positive")),
                ),
            )
        } else {
            inputs.push(input("reason", String::from_str("funding_rate_long_squeeze")));
            Some(
                make_signal(
                    &self.name,
                    candle,
                    SignalDirection::Long,
                    strength,
                    conf,
                    stop,
                    target,
                    Some(self.max_hold_bars),
                    metadata(inputs, Some(unc), Some("funding_extreme_negative")),
                ),
            )
        }
    }

    /// What `params` lists for this state.
    open spec fn params_relation(&self, r: Seq<(String, ParamValue)>) -> bool {
        &&& (r.len() == 2)
        &&& (r[0].0@ == "entry_threshold"@)
        &&& (r[1].0@ == "extreme_threshold"@)
        &&& (r[0].1 matches ParamValue::Text(t)
            && t@ == decimal::decimal_display(self.entry_threshold))
        &&& (r[1].1 matches ParamValue::Text(t)
            && t@ == decimal::decimal_display(self.extreme_threshold))
    }

    fn params(&self) -> (r: Vec<(String, ParamValue)>)
        ensures
            r@.len() == 2,
            r@[0].0@ == "entry_threshold"@,
            r@[1].0@ == "extreme_threshold"@,
            r@[0].1 matches ParamValue::Text(t) && t@ == decimal::decimal_display(self.entry_threshold),
            r@[1].1 matches ParamValue::Text(t) && t@ == decimal::decimal_display(self.extreme_threshold),
    {
        let mut m: Vec<(String, ParamValue)> = Vec::new();
        m.push(
            (String::from_str("entry_threshold"), ParamValue::Text(self.entry_threshold.to_string())),
        );
        m.push(
            (
                String::from_str("extreme_threshold"),
                ParamValue::Text(self.extreme_threshold.to_string()),
            ),
        );
        m
    }

    fn reset(&mut self)

    {
        self.bars_since_signal = 0;
        self.current_funding_rate = None;
    }

    fn cooldown_bars(&self) -> (r: u32)
        ensures
            r == self.cooldown,
    {
        self.cooldown
    }
}

/// Funding-rate entries protect themselves: with a positive ATR, positive
/// multipliers and exact decimal offsets, a long's stop is below the entry
/// and its target above, and a short's stop is above the entry and its
/// target below.
pub proof fn law_funding_rate_levels_bracket_entry(
    s0: FundingRateReversion,
    candle: Candle,
    features: FeatureRow,
    position: Option<Position>,
    after: FundingRateReversion,
    sig: Signal,
)
    requires
        s0.bar_relation(candle, features, position, after, Some(sig)),
        features.atr_14 matches Some(atr) && atr@ > 0,
        s0.atr_stop_multiplier@ > 0,
        exact_offset(candle.close, features.atr_14->0, s0.atr_stop_multiplier),
        s0.atr_target_multiplier@ > 0,
        exact_offset(candle.close, features.atr_14->0, s0.atr_target_multiplier),
    ensures
        stop_on_loss_side(sig),
        levels_bracket_entry(sig),
{
    let atr = features.atr_14->0;
    lemma_offset_sides(candle.close, atr, s0.atr_stop_multiplier);
    lemma_offset_sides(candle.close, atr, s0.atr_target_multiplier);
}

} // verus!
