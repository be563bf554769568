//! Breakout: entries when the close clears the highest high (or lowest low)
//! of the previous bars with volume confirmation.
use vstd::prelude::*;
use crate::decimal::{self, Dec};
use crate::config::ParamValue;
use crate::features::FeatureRow;
use crate::types::{Candle, Position, Signal, SignalDirection};
use crate::strategy::{
    Strategy, lit_dec, get_u64, get_dec, get_bool, get_text, make_signal, metadata, input,
    position_state, param_u64, param_dec, param_bool, param_text, has_open_position,
    deref_position, signal_is, next_bar, count_bar, below_by, above_by,
    exact_offset, lemma_offset_sides, levels_bracket_entry, stop_on_loss_side,
};

verus! {

/// Breakout strategy.
#[derive(Clone, Debug)]
pub struct Breakout {
    pub name: String,
    pub lookback: usize,
    pub volume_multiplier: Dec,
    pub atr_stop_multiplier: Dec,
    pub atr_target_multiplier: Dec,
    pub recent_highs: Vec<Dec>,
    pub recent_lows: Vec<Dec>,
    pub bars_since_signal: u32,
    pub cooldown: u32,
    pub allow_short: bool,
}

/// `v` is above every value of `s`.
pub open spec fn above_all(v: Dec, s: Seq<Dec>) -> bool {
    forall|i: int| 0 <= i < s.len() ==> v@ > (#[trigger] s[i])@
}

/// `v` is below every value of `s`.
pub open spec fn below_all(v: Dec, s: Seq<Dec>) -> bool {
    forall|i: int| 0 <= i < s.len() ==> v@ < (#[trigger] s[i])@
}

/// Whether the highs were trimmed after pushing this bar's high.
pub open spec fn trims(s: Breakout) -> bool {
    s.recent_highs@.len() + 1 > s.lookback + 1
}

/// The highs after the bar.
pub open spec fn highs_after(s: Breakout, c: Candle) -> Seq<Dec> {
    if trims(s) {
        s.recent_highs@.push(c.high).drop_first()
    } else {
        s.recent_highs@.push(c.high)
    }
}

/// The lows after the bar (trimmed together with the highs).
pub open spec fn lows_after(s: Breakout, c: Candle) -> Seq<Dec> {
    if trims(s) {
        s.recent_lows@.push(c.low).drop_first()
    } else {
        s.recent_lows@.push(c.low)
    }
}

/// The direction of the strategy's signal on this bar (`None`: none).
pub open spec fn breakout_decision(s: Breakout, c: Candle, f: FeatureRow, p: Option<Position>) -> Option<
    SignalDirection,
> {
    let highs = highs_after(s, c);
    let lows = lows_after(s, c);
    if highs.len() <= s.lookback || f.atr_14 is None || next_bar(s.bars_since_signal) < s.cooldown
        || s.lookback == 0 || lows.len() < s.lookback || has_open_position(p) {
        None
    } else {
        let volume_ok = match f.volume_ratio {
            Some(vr) => vr@ >= s.volume_multiplier@,
            None => false,
        };
        if above_all(c.close, highs.subrange(0, s.lookback as int)) && volume_ok {
            Some(SignalDirection::Long)
        } else if s.allow_short && below_all(c.close, lows.subrange(0, s.lookback as int))
            && volume_ok {
            Some(SignalDirection::Short)
        } else {
            None
        }
    }
}

/// Largest value of a non-empty slice prefix.
fn max_of(v: &Vec<Dec>, n: usize) -> (r: Dec)
    requires
        0 < n <= v@.len(),
    ensures
        forall|i: int| 0 <= i < n ==> r@ >= (#[trigger] v@[i])@,
        exists|i: int| 0 <= i < n && r == v@[i],
{
    let mut m = v[0];
    let mut i: usize = 1;
    while i < n
        invariant
            0 < i <= n <= v@.len(),
            forall|j: int| 0 <= j < i ==> m@ >= (#[trigger] v@[j])@,
            exists|j: int| 0 <= j < i && m == v@[j],
        decreases n - i,
    {
        if v[i].gt(&m) {
            m = v[i];
        }
        i = i + 1;
    }
    m
}

/// Smallest value of a non-empty slice prefix.
fn min_of(v: &Vec<Dec>, n: usize) -> (r: Dec)
    requires
        0 < n <= v@.len(),
    ensures
        forall|i: int| 0 <= i < n ==> r@ <= (#[trigger] v@[i])@,
        exists|i: int| 0 <= i < n && r == v@[i],
{
    let mut m = v[0];
    let mut i: usize = 1;
    while i < n
        invariant
            0 < i <= n <= v@.len(),
            forall|j: int| 0 <= j < i ==> m@ <= (#[trigger] v@[j])@,
            exists|j: int| 0 <= j < i && m == v@[j],
        decreases n - i,
    {
        if v[i].lt(&m) {
            m = v[i];
        }
        i = i + 1;
    }
    m
}

impl Breakout {
    /// Builds the strategy from its parameters (defaults: 20-bar lookback,
    /// volume 1.5x average, ATR multipliers 2 and 3, cooldown 5, long only).
    pub fn new(params: &Vec<(String, ParamValue)>) -> (r: Self)
        ensures
            r.name@ == param_text(params@, "name"@, "breakout"@),
            r.lookback == param_u64(params@, "lookback"@, 20) as usize,
            r.volume_multiplier == param_dec(params@, "volume_multiplier"@, decimal::dec_lit(15, 1)),
            r.atr_stop_multiplier == param_dec(params@, "atr_stop_multiplier"@, decimal::dec_lit(2, 0)),
            r.atr_target_multiplier == param_dec(
                params@,
                "atr_target_multiplier"@,
                decimal::dec_lit(3, 0),
            ),
            r.recent_highs@.len() == 0,
            r.recent_lows@.len() == 0,
            r.bars_since_signal == 0,
            r.cooldown == param_u64(params@, "cooldown"@, 5) as u32,
            r.allow_short == param_bool(params@, "allow_short"@, false),
    {
        Breakout {
            name: get_text(params, "name", "breakout"),
            lookback: get_u64(params, "lookback", 20) as usize,
            volume_multiplier: get_dec(params, "volume_multiplier", lit_dec(15, 1)),
            atr_stop_multiplier: get_dec(params, "atr_stop_multiplier", lit_dec(2, 0)),
            atr_target_multiplier: get_dec(params, "atr_target_multiplier", lit_dec(3, 0)),
            recent_highs: Vec::new(),
            recent_lows: Vec::new(),
            bars_since_signal: 0,
            cooldown: get_u64(params, "cooldown", 5) as u32,
            allow_short: get_bool(params, "allow_short", false),
        }
    }
}

impl Strategy for Breakout {
    open spec fn name_spec(&self) -> Seq<char> {
        self.name@
    }

    open spec fn bar_relation(
        &self,
        candle: Candle,
        features: FeatureRow,
        position: Option<Position>,
        after: Self,
        r: Option<Signal>,
    ) -> bool {
        let s0 = *self;
        let s1 = after;
        let counted = next_bar(s0.bars_since_signal);
        let p = position;
        &&& s1.recent_highs@ == highs_after(s0, candle)
        &&& s1.recent_lows@ == lows_after(s0, candle)
        &&& s1.name == s0.name && s1.lookback == s0.lookback && s1.volume_multiplier
            == s0.volume_multiplier && s1.atr_stop_multiplier == s0.atr_stop_multiplier
            && s1.atr_target_multiplier == s0.atr_target_multiplier && s1.cooldown
            == s0.cooldown && s1.allow_short == s0.allow_short
        &&& match breakout_decision(s0, candle, features, p) {
            None => r is None && s1.bars_since_signal == counted,
            Some(d) => {
                let atr = features.atr_14->0;
                let long = d == SignalDirection::Long;
                let stop = if long {
                    below_by(candle.close, atr, s0.atr_stop_multiplier)
                } else {
                    above_by(candle.close, atr, s0.atr_stop_multiplier)
                };
                let target = if long {
                    above_by(candle.close, atr, s0.atr_target_multiplier)
                } else {
                    below_by(candle.close, atr, s0.atr_target_multiplier)
                };
                if stop is Some && target is Some {
                    &&& r is Some
                    &&& signal_is(
                        r->0,
                        s0.name@,
                        candle,
                        d,
                        decimal::dec_lit(1, 0),
                        if long {
                            decimal::dec_lit(7, 1)
                        } else {
                            decimal::dec_lit(65, 2)
                        },
                        stop,
                        target,
                        Some(30),
                    )
                    &&& r->0.metadata.uncertainty_score is Some
                    &&& r->0.metadata.uncertainty_score->0@ == (if long {
                        decimal::dec_lit(3, 1)@
                    } else {
                        decimal::dec_lit(35, 2)@
                    })
                    &&& r->0.metadata.regime is Some
                    &&& r->0.metadata.regime->0@ == (if long {
                        "breakout"@
                    } else {
                        "breakdown"@
                    })
                    &&& s1.bars_since_signal == 0
                } else {
                    r is None && s1.bars_since_signal == counted
                }
            },
        }
    }

    open spec fn reset_relation(&self, after: Self) -> bool {
        &&& after.bars_since_signal == 0
        &&& after.recent_highs@.len() == 0
        &&& after.recent_lows@.len() == 0
        &&& after.lookback == self.lookback
        &&& after.cooldown == self.cooldown
    }

    fn name(&self) -> (r: &str)
        ensures
            r@ == self.name@,
    {
        self.name.as_str()
    }

    fn on_bar(
        &mut self,
        candle: &Candle,
        features: &FeatureRow,
        current_position: Option<&Position>,
    ) -> (r: Option<Signal>)

    {
        let ghost s0 = *self;
        self.bars_since_signal = count_bar(self.bars_since_signal);
        let trim = self.recent_highs.len() >= self.lookback && self.recent_highs.len() - self.lookback
            >= 1;
        self.recent_highs.push(candle.high);
        self.recent_lows.push(candle.low);
        if trim {
            self.recent_highs.remove(0);
            self.recent_lows.remove(0);
        }
        proof {
            assert(trim == trims(s0));
        }
        if self.recent_highs.len() <= self.lookback {
            return None;
        }
        let atr = match features.atr_14 {
            Some(v) => v,
            None => return None,
        };
        if self.bars_since_signal < self.cooldown {
            return None;
        }
        if self.lookback == 0 || self.recent_lows.len() < self.lookback {
            return None;
        }
        let (has_position, _) = position_state(current_position);
        if has_position {
            return None;
        }
        let n_bar_high = max_of(&self.recent_highs, self.lookback);
        let n_bar_low = min_of(&self.recent_lows, self.lookback);
        let volume_ok = match features.volume_ratio {
            Some(vr) => vr.ge(&self.volume_multiplier),
            None => false,
        };
        proof {
            let hw = self.recent_highs@.subrange(0, self.lookback as int);
            let lw = self.recent_lows@.subrange(0, self.lookback as int);
            assert(above_all(candle.close, hw) == (candle.close@ > n_bar_high@)) by {
                if candle.close@ > n_bar_high@ {
                    assert forall|i: int| 0 <= i < hw.len() implies candle.close@ > (#[trigger] hw[i])@ by {
                        assert(hw[i] == self.recent_highs@[i]);
                    }
                } else {
                    let k = choose|k: int| 0 <= k < self.lookback && n_bar_high == self.recent_highs@[k];
                    assert(hw[k] == self.recent_highs@[k]);
                }
            }
            assert(below_all(candle.close, lw) == (candle.close@ < n_bar_low@)) by {
                if candle.close@ < n_bar_low@ {
                    assert forall|i: int| 0 <= i < lw.len() implies candle.close@ < (#[trigger] lw[i])@ by {
                        assert(lw[i] == self.recent_lows@[i]);
                    }
                } else {
                    let k = choose|k: int| 0 <= k < self.lookback && n_bar_low == self.recent_lows@[k];
                    assert(lw[k] == self.recent_lows@[k]);
                }
            }
        }
        if candle.close.gt(&n_bar_high) && volume_ok {
            let stop = decimal::sub_opt(Some(candle.close), atr.mul(self.atr_stop_multiplier));
            let target = decimal::add_opt(Some(candle.close), atr.mul(self.atr_target_multiplier));
            if stop.is_none() || target.is_none() {
                return None;
            }
            self.bars_since_signal = 0;
            let mut inputs: Vec<(String, String)> = Vec::new();
            inputs.push(input("n_bar_high", n_bar_high.to_string()));
            inputs.push(input("volume_ok", String::from_str("true")));
            inputs.push(input("reason", String::from_str("breakout_long")));
            proof {
                decimal::lemma_lit(3, 1);
                decimal::lemma_lit(1, 0);
                decimal::lemma_lit(7, 1);
                decimal::lemma_pow10_28();
                reveal_with_fuel(decimal::pow10, 29);
            }
            let unc = crate::strategy::sub_exact(lit_dec(1, 0), lit_dec(7, 1));
            return Some(
                make_signal(
                    &self.name,
                    candle,
                    SignalDirection::Long,
                    lit_dec(1, 0),
                    lit_dec(7, 1),
                    stop,
                    target,
                    Some(30),
                    metadata(inputs, Some(unc), Some("breakout")),
                ),
            );
        }
        if self.allow_short && candle.close.lt(&n_bar_low) && volume_ok {
            let stop = decimal::add_opt(Some(candle.close), atr.mul(self.atr_stop_multiplier));
            let target = decimal::sub_opt(Some(candle.close), atr.mul(self.atr_target_multiplier));
            if stop.is_none() || target.is_none() {
                return None;
            }
            self.bars_since_signal = 0;
            let mut inputs: Vec<(String, String)> = Vec::new();
            inputs.push(input("n_bar_low", n_bar_low.to_string()));
            inputs.push(input("reason", String::from_str("breakout_short")));
            return Some(
                make_signal(
                    &self.name,
                    candle,
                    SignalDirection::Short,
                    lit_dec(1, 0),
                    lit_dec(65, 2),
                    stop,
                    target,
                    Some(30),
                    metadata(inputs, Some(lit_dec(35, 2)), Some("breakdown")),
                ),
            );
        }
        None
    }

    /// What `params` lists for this state.
    open spec fn params_relation(&self, r: Seq<(String, ParamValue)>) -> bool {
        &&& (r.len() == 1)
        &&& (r[0].0@ == "lookback"@)
        &&& (r[0].1 == ParamValue::UInt(self.lookback as u64))
    }

    fn params(&self) -> (r: Vec<(String, ParamValue)>)
        ensures
            r@.len() == 1,
            r@[0].0@ == "lookback"@,
            r@[0].1 == ParamValue::UInt(self.lookback as u64),
    {
        let mut m: Vec<(String, ParamValue)> = Vec::new();
        m.push((String::from_str("lookback"), ParamValue::UInt(self.lookback as u64)));
        m
    }

    fn reset(&mut self)

    {
        self.bars_since_signal = 0;
        self.recent_highs.clear();
        self.recent_lows.clear();
    }

    fn cooldown_bars(&self) -> (r: u32)
        ensures
            r == self.cooldown,
    {
        self.cooldown
    }
}

/// Breakout entries protect themselves: with a positive ATR, positive
/// multipliers and exact decimal offsets, a long's stop is below the entry
/// and its target above, and a short's stop is above the entry and its
/// target below.
pub proof fn law_breakout_levels_bracket_entry(
    s0: Breakout,
    candle: Candle,
    features: FeatureRow,
    position: Option<Position>,
    after: Breakout,
    sig: Signal,
)
    requires
        s0.bar_relation(candle, features, position, after, Some(sig)),
        features.atr_14 matches Some(atr) && atr@ > 0,
        s0.atr_stop_multiplier@ > 0,
        exact_offset(candle.close, features.atr_14->0, s0.atr_stop_multiplier),
        s0.atr_target_multiplier@ > 0,
        exact_offset(candle.close, features.atr_14->0, s0.atr_target_multiplier),
    ensures
        stop_on_loss_side(sig),
        levels_bracket_entry(sig),
{
    let atr = features.atr_14->0;
    lemma_offset_sides(candle.close, atr, s0.atr_stop_multiplier);
    lemma_offset_sides(candle.close, atr, s0.atr_target_multiplier);
}

} // verus!
