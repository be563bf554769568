//! Order-book imbalance: entries in the direction of a bid/ask imbalance
//! that persists over several bars with volume confirmation.
use vstd::prelude::*;
use crate::decimal::{self, Dec};
use crate::config::ParamValue;
use crate::features::FeatureRow;
use crate::types::{Candle, Position, Signal, SignalDirection};
use crate::risk_signal::push_bounded;
use crate::strategy::{
    Strategy, lit_dec, get_u64, get_dec, get_text, make_signal, metadata, input, position_state,
    param_u64, param_dec, param_text, has_open_position, deref_position, signal_is, next_bar,
    count_bar, below_by, above_by,
    exact_offset, lemma_offset_sides, levels_bracket_entry, stop_on_loss_side,
};
use crate::config::usize_to_string;

verus! {

/// Order-book imbalance strategy.
#[derive(Clone, Debug)]
pub struct ImbalanceStrategy {
    pub name: String,
    pub min_imbalance: Dec,
    pub persistence_bars: usize,
    pub volume_confirm: Dec,
    pub atr_stop_multiplier: Dec,
    pub atr_target_multiplier: Dec,
    pub cooldown: u32,
    pub bars_since_signal: u32,
    pub imbalance_history: Vec<Dec>,
    pub current_imbalance: Option<Dec>,
}

/// The direction of an imbalance that held over the last `k` readings:
/// long when all are above `min`, short when all are below `-min`.
pub open spec fn persistent_spec(hist: Seq<Dec>, k: usize, min: Dec) -> Option<SignalDirection> {
    if hist.len() < k {
        None
    } else {
        let recent = hist.subrange(hist.len() - k, hist.len() as int);
        if forall|i: int| 0 <= i < recent.len() ==> (#[trigger] recent[i])@ > min@ {
            Some(SignalDirection::Long)
        } else if forall|i: int| 0 <= i < recent.len() ==> (#[trigger] recent[i])@ < -min@ {
            Some(SignalDirection::Short)
        } else {
            None
        }
    }
}

/// The direction of the strategy's signal on this bar (`None`: none).
pub open spec fn imbalance_decision(s: ImbalanceStrategy, f: FeatureRow, p: Option<Position>) -> Option<
    SignalDirection,
> {
    let vr = match f.volume_ratio {
        Some(v) => v,
        None => decimal::dec_lit(1, 0),
    };
    if s.current_imbalance is None || f.atr_14 is None || next_bar(s.bars_since_signal) < s.cooldown
        || has_open_position(p) {
        None
    } else {
        match persistent_spec(s.imbalance_history@, s.persistence_bars, s.min_imbalance) {
            None => None,
            Some(d) => if vr@ < s.volume_confirm@ {
                None
            } else {
                Some(d)
            },
        }
    }
}

/// `min(0.5 + |imbalance| * 0.3, 0.85)`.
pub open spec fn imbalance_confidence(imbalance: Dec) -> Option<Dec> {
    match decimal::add_spec(
        Some(decimal::dec_lit(5, 1)),
        decimal::mul_spec(Some(decimal::dec_abs_of(imbalance)), Some(decimal::dec_lit(3, 1))),
    ) {
        Some(c) => Some(decimal::dec_min(c, decimal::dec_lit(85, 2))),
        None => None,
    }
}

pub open spec fn imbalance_with_bars(s: ImbalanceStrategy, bars: u32) -> ImbalanceStrategy {
    ImbalanceStrategy { bars_since_signal: bars, ..s }
}

impl ImbalanceStrategy {
    /// Builds the strategy from its parameters (defaults: imbalance 0.2 held
    /// for 3 bars, volume 1.2x, ATR multipliers 1.5 and 2, cooldown 3).
    pub fn new(params: &Vec<(String, ParamValue)>) -> (r: Self)
        ensures
            r.name@ == param_text(params@, "name"@, "imbalance"@),
            r.min_imbalance == param_dec(params@, "min_imbalance"@, decimal::dec_lit(2, 1)),
            r.persistence_bars == param_u64(params@, "persistence_bars"@, 3) as usize,
            r.volume_confirm == param_dec(params@, "volume_confirm"@, decimal::dec_lit(12, 1)),
            r.atr_stop_multiplier == param_dec(params@, "atr_stop_multiplier"@, decimal::dec_lit(15, 1)),
            r.atr_target_multiplier == param_dec(
                params@,
                "atr_target_multiplier"@,
                decimal::dec_lit(2, 0),
            ),
            r.cooldown == param_u64(params@, "cooldown"@, 3) as u32,
            r.bars_since_signal == 0,
            r.imbalance_history@.len() == 0,
            r.current_imbalance is None,
    {
        ImbalanceStrategy {
            name: get_text(params, "name", "imbalance"),
            min_imbalance: get_dec(params, "min_imbalance", lit_dec(2, 1)),
            persistence_bars: get_u64(params, "persistence_bars", 3) as usize,
            volume_confirm: get_dec(params, "volume_confirm", lit_dec(12, 1)),
            atr_stop_multiplier: get_dec(params, "atr_stop_multiplier", lit_dec(15, 1)),
            atr_target_multiplier: get_dec(params, "atr_target_multiplier", lit_dec(2, 0)),
            cooldown: get_u64(params, "cooldown", 3) as u32,
            bars_since_signal: 0,
            imbalance_history: Vec::new(),
            current_imbalance: None,
        }
    }

    /// Records the latest imbalance, keeping the last 20 readings.
    pub fn set_imbalance(&mut self, imbalance: Dec)
        ensures
            final(self).current_imbalance == Some(imbalance),
            final(self).imbalance_history@ == push_bounded(old(self).imbalance_history@, imbalance, 20),
            *final(self) == (ImbalanceStrategy {
                current_imbalance: Some(imbalance),
                imbalance_history: final(self).imbalance_history,
                ..*old(self)
            }),
    {
        self.current_imbalance = Some(imbalance);
        self.imbalance_history.push(imbalance);
        if self.imbalance_history.len() > 20 {
            self.imbalance_history.remove(0);
        }
    }

    /// The direction of a persistent imbalance, if any.
    pub fn persistent_imbalance(&self) -> (r: Option<SignalDirection>)
        ensures
            r == persistent_spec(self.imbalance_history@, self.persistence_bars, self.min_imbalance),
    {
        let n = self.imbalance_history.len();
        let k = self.persistence_bars;
        if n < k {
            return None;
        }
        let neg = self.min_imbalance.neg();
        let ghost recent = self.imbalance_history@.subrange(n - k, n as int);
        let mut all_bid = true;
        let mut all_ask = true;
        let mut i: usize = n - k;
        while i < n
            invariant
                n == self.imbalance_history@.len(),
                k <= n,
                n - k <= i <= n,
                neg@ == -self.min_imbalance@,
                recent == self.imbalance_history@.subrange(n - k, n as int),
                all_bid == forall|j: int| n - k <= j < i ==> (#[trigger] self.imbalance_history@[j])@
                    > self.min_imbalance@,
                all_ask == forall|j: int| n - k <= j < i ==> (#[trigger] self.imbalance_history@[j])@
                    < neg@,
            decreases n - i,
        {
            let v = self.imbalance_history[i];
            if !v.gt(&self.min_imbalance) {
                all_bid = false;
            }
            if !v.lt(&neg) {
                all_ask = false;
            }
            i = i + 1;
        }
        proof {
            assert((forall|j: int| 0 <= j < recent.len() ==> (#[trigger] recent[j])@ > self.min_imbalance@)
                == all_bid) by {
                if all_bid {
                    assert forall|j: int| 0 <= j < recent.len() implies (#[trigger] recent[j])@
                        > self.min_imbalance@ by {
                        assert(recent[j] == self.imbalance_history@[n - k + j]);
                    }
                } else {
                    let j = choose|j: int| n - k <= j < n && !((#[trigger] self.imbalance_history@[j])@
                        > self.min_imbalance@);
                    assert(recent[j - (n - k)] == self.imbalance_history@[j]);
                }
            }
            assert((forall|j: int| 0 <= j < recent.len() ==> (#[trigger] recent[j])@ < -self.min_imbalance@)
                == all_ask) by {
                if all_ask {
                    assert forall|j: int| 0 <= j < recent.len() implies (#[trigger] recent[j])@
                        < -self.min_imbalance@ by {
                        assert(recent[j] == self.imbalance_history@[n - k + j]);
                    }
                } else {
                    let j = choose|j: int| n - k <= j < n && !((#[trigger] self.imbalance_history@[j])@ < neg@);
                    assert(recent[j - (n - k)] == self.imbalance_history@[j]);
                }
            }
        }
        if all_bid {
            Some(SignalDirection::Long)
        } else if all_ask {
            Some(SignalDirection::Short)
        } else {
            None
        }
    }
}

impl Strategy for ImbalanceStrategy {
    open spec fn name_spec(&self) -> Seq<char> {
        self.name@
    }

    open spec fn bar_relation(
        &self,
        candle: Candle,
        features: FeatureRow,
        position: Option<Position>,
        after: Self,
        r: Option<Signal>,
    ) -> bool {
        let s0 = *self;
        let counted = next_bar(s0.bars_since_signal);
        let p = position;
        let atr = features.atr_14->0;
        let conf = imbalance_confidence(s0.current_imbalance->0);
        match imbalance_decision(s0, features, p) {
            None => r is None && after == imbalance_with_bars(s0, counted),
            Some(dir) => {
                let long = dir == SignalDirection::Long;
                let stop = if long {
                    below_by(candle.close, atr, s0.atr_stop_multiplier)
                } else {
                    above_by(candle.close, atr, s0.atr_stop_multiplier)
                };
                let target = if long {
                    above_by(candle.close, atr, s0.atr_target_multiplier)
                } else {
                    below_by(candle.close, atr, s0.atr_target_multiplier)
                };
                let unc = decimal::sub_spec(Some(decimal::dec_lit(1, 0)), conf);
                if conf is Some && stop is Some && target is Some && unc is Some {
                    &&& r is Some
                    &&& signal_is(
                        r->0,
                        s0.name@,
                        candle,
                        dir,
                        decimal::dec_lit(8, 1),
                        conf->0,
                        stop,
                        target,
                        Some(10),
                    )
                    &&& r->0.metadata.uncertainty_score == unc
                    &&& after == imbalance_with_bars(s0, 0)
                } else {
                    r is None && after == imbalance_with_bars(s0, counted)
                }
            },
        }
    }

    open spec fn reset_relation(&self, after: Self) -> bool {
        &&& after.bars_since_signal == 0
        &&& after.imbalance_history@.len() == 0
        &&& after.current_imbalance is None
        &&& after.name == self.name
        &&& after.cooldown == self.cooldown
    }

    fn name(&self) -> (r: &str)
        ensures
            r@ == self.name@,
    {
        self.name.as_str()
    }

    fn on_bar(
        &mut self,
        candle: &Candle,
        features: &FeatureRow,
        current_position: Option<&Position>,
    ) -> (r: Option<Signal>)

    {
        self.bars_since_signal = count_bar(self.bars_since_signal);
        let imbalance = match self.current_imbalance {
            Some(v) => v,
            None => return None,
        };
        let atr = match features.atr_14 {
            Some(v) => v,
            None => return None,
        };
        let volume_ratio = match features.volume_ratio {
            Some(v) => v,
            None => lit_dec(1, 0),
        };
        if self.bars_since_signal < self.cooldown {
            return None;
        }
        let (has_position, _) = position_state(current_position);
        if has_position {
            return None;
        }
        let direction = match self.persistent_imbalance() {
            Some(d) => d,
            None => return None,
        };
        if volume_ratio.lt(&self.volume_confirm) {
            return None;
        }
        let conf = match decimal::add_opt(Some(lit_dec(5, 1)), imbalance.abs().mul(lit_dec(3, 1))) {
            Some(c) => c.min(lit_dec(85, 2)),
            None => return None,
        };
        let long = direction == SignalDirection::Long;
        let (stop, target) = if long {
            (
                decimal::sub_opt(Some(candle.close), atr.mul(self.atr_stop_multiplier)),
                decimal::add_opt(Some(candle.close), atr.mul(self.atr_target_multiplier)),
            )
        } else {
            (
                decimal::add_opt(Some(candle.close), atr.mul(self.atr_stop_multiplier)),
                decimal::sub_opt(Some(candle.close), atr.mul(self.atr_target_multiplier)),
            )
        };
        let unc = lit_dec(1, 0).sub(conf);
        if stop.is_none() || target.is_none() || unc.is_none() {
            return None;
        }
        self.bars_since_signal = 0;
        let mut inputs: Vec<(String, String)> = Vec::new();
        inputs.push(input("imbalance", imbalance.to_string()));
        inputs.push(input("persistence_bars", usize_to_string(self.persistence_bars)));
        inputs.push(input("volume_ratio", volume_ratio.to_string()));
        inputs.push(input("reason", String::from_str("persistent_orderbook_imbalance")));
        Some(
            make_signal(
                &self.name,
                candle,
                direction,
                lit_dec(8, 1),
                conf,
                stop,
                target,
                Some(10),
                metadata(inputs, unc, None),
            ),
        )
    }

    /// What `params` lists for this state.
    open spec fn params_relation(&self, r: Seq<(String, ParamValue)>) -> bool {
        &&& (r.len() == 2)
        &&& (r[0].0@ == "min_imbalance"@)
        &&& (r[1].0@ == "persistence_bars"@)
        &&& (r[0].1 matches ParamValue::Text(t)
            && t@ == decimal::decimal_display(self.min_imbalance))
        &&& (r[1].1 == ParamValue::UInt(self.persistence_bars as u64))
    }

    fn params(&self) -> (r: Vec<(String, ParamValue)>)
        ensures
            r@.len() == 2,
            r@[0].0@ == "min_imbalance"@,
            r@[1].0@ == "persistence_bars"@,
            r@[0].1 matches ParamValue::Text(t) && t@ == decimal::decimal_display(self.min_imbalance),
            r@[1].1 == ParamValue::UInt(self.persistence_bars as u64),
    {
        let mut m: Vec<(String, ParamValue)> = Vec::new();
        m.push((String::from_str("min_imbalance"), ParamValue::Text(self.min_imbalance.to_string())));
        m.push(
            (String::from_str("persistence_bars"), ParamValue::UInt(self.persistence_bars as u64)),
        );
        m
    }

    fn reset(&mut self)

    {
        self.bars_since_signal = 0;
        self.imbalance_history.clear();
        self.current_imbalance = None;
    }

    fn cooldown_bars(&self) -> (r: u32)
        ensures
            r == self.cooldown,
    {
        self.cooldown
    }
}

/// Imbalance entries protect themselves: with a positive ATR, positive
/// multipliers and exact decimal offsets, a long's stop is below the entry
/// and its target above, and a short's stop is above the entry and its
/// target below.
pub proof fn law_imbalance_levels_bracket_entry(
    s0: ImbalanceStrategy,
    candle: Candle,
    features: FeatureRow,
    position: Option<Position>,
    after: ImbalanceStrategy,
    sig: Signal,
)
    requires
        s0.bar_relation(candle, features, position, after, Some(sig)),
        features.atr_14 matches Some(atr) && atr@ > 0,
        s0.atr_stop_multiplier@ > 0,
        exact_offset(candle.close, features.atr_14->0, s0.atr_stop_multiplier),
        s0.atr_target_multiplier@ > 0,
        exact_offset(candle.close, features.atr_14->0, s0.atr_target_multiplier),
    ensures
        stop_on_loss_side(sig),
        levels_bracket_entry(sig),
{
    let atr = features.atr_14->0;
    lemma_offset_sides(candle.close, atr, s0.atr_stop_multiplier);
    lemma_offset_sides(candle.close, atr, s0.atr_target_multiplier);
}

} // verus!
