//! Anti-consensus (contrarian): when every strategy that spoke on the
//! current bar agrees, the trade is crowded; fade it when RSI supports the
//! contrarian view.  Other strategies' signals are fed in with
//! `record_signal`.
use vstd::prelude::*;
use crate::decimal::{self, Dec};
use crate::config::{ParamValue, usize_to_string, usize_display};
use crate::features::FeatureRow;
use crate::indicators::dec_of_u32;
use crate::risk::concat3;
use crate::types::{Candle, Position, Signal, SignalDirection};
use crate::strategy::{
    Strategy, lit, lit_dec, get_u64, get_dec, get_bool, get_text, make_signal, metadata, input,
    position_state, param_u64, param_dec, param_bool, param_text, has_open_position, deref_position,
    signal_is, next_bar, count_bar, below_by, above_by,
    exact_offset, lemma_offset_sides, levels_bracket_entry, stop_on_loss_side,
};

verus! {

/// A signal another strategy emitted, with the bar it came on.
#[derive(Clone, Debug)]
pub struct SignalRecord {
    pub strategy: String,
    pub direction: SignalDirection,
    pub confidence: Dec,
    pub bar_index: u64,
}

/// Anti-consensus contrarian strategy.
#[derive(Clone, Debug)]
pub struct AntiConsensus {
    pub name: String,
    pub min_consensus_count: usize,
    pub dampening_factor: Dec,
    pub generate_contrarian: bool,
    pub atr_stop_multiplier: Dec,
    pub atr_target_multiplier: Dec,
    pub cooldown: u32,
    pub bars_since_signal: u32,
    pub recent_signals: Vec<SignalRecord>,
    pub current_bar: u64,
}

/// `s` without its leading records from before bar `cutoff`.
pub open spec fn drop_before(s: Seq<SignalRecord>, cutoff: int) -> Seq<SignalRecord>
    decreases s.len(),
{
    if s.len() > 0 && s[0].bar_index < cutoff {
        drop_before(s.drop_first(), cutoff)
    } else {
        s
    }
}

/// The oldest bar whose records are kept: the previous one.
pub open spec fn keep_from(current_bar: u64) -> int {
    if current_bar >= 1 {
        current_bar - 1
    } else {
        0
    }
}

/// How many records are from bar `bar`.
pub open spec fn count_on_bar(s: Seq<SignalRecord>, bar: u64) -> nat
    decreases s.len(),
{
    if s.len() == 0 {
        0
    } else {
        count_on_bar(s.drop_last(), bar) + if s.last().bar_index == bar {
            1nat
        } else {
            0nat
        }
    }
}

/// How many records from bar `bar` point in `dir`.
pub open spec fn count_dir_on_bar(s: Seq<SignalRecord>, bar: u64, dir: SignalDirection) -> nat
    decreases s.len(),
{
    if s.len() == 0 {
        0
    } else {
        count_dir_on_bar(s.drop_last(), bar, dir) + if s.last().bar_index == bar && s.last().direction
            == dir {
            1nat
        } else {
            0nat
        }
    }
}

/// The consensus on the current bar: the direction and the number of
/// strategies, when at least the minimum number spoke and all agree.
pub open spec fn consensus_spec(s: AntiConsensus) -> Option<(SignalDirection, usize)> {
    let n = count_on_bar(s.recent_signals@, s.current_bar);
    if n < s.min_consensus_count {
        None
    } else if count_dir_on_bar(s.recent_signals@, s.current_bar, SignalDirection::Long) == n {
        Some((SignalDirection::Long, n as usize))
    } else if count_dir_on_bar(s.recent_signals@, s.current_bar, SignalDirection::Short) == n {
        Some((SignalDirection::Short, n as usize))
    } else {
        None
    }
}

/// The strategy after counting a bar.
pub open spec fn anti_counted(s: AntiConsensus) -> AntiConsensus {
    AntiConsensus {
        current_bar: if s.current_bar < u64::MAX {
            (s.current_bar + 1) as u64
        } else {
            s.current_bar
        },
        bars_since_signal: next_bar(s.bars_since_signal),
        ..s
    }
}

/// Whether RSI (50 without a reading) supports fading a consensus in `dir`:
/// overbought above 65 for a long one, oversold below 35 for a short one.
pub open spec fn rsi_confirms_fade(f: FeatureRow, dir: SignalDirection) -> bool {
    let rsi = match f.rsi_14 {
        Some(v) => v@,
        None => lit(50, 0),
    };
    match dir {
        SignalDirection::Long => rsi > lit(65, 0),
        SignalDirection::Short => rsi < lit(35, 0),
        _ => false,
    }
}

/// What the strategy decides on a bar, from the counted state: the
/// consensus it fades (`None`: no signal).
pub open spec fn anti_decision(s: AntiConsensus, f: FeatureRow, p: Option<Position>) -> Option<
    (SignalDirection, usize),
> {
    if s.bars_since_signal < s.cooldown || has_open_position(p) || !s.generate_contrarian
        || f.atr_14 is None {
        None
    } else {
        match consensus_spec(s) {
            Some(found) => if rsi_confirms_fade(f, found.0) {
                Some(found)
            } else {
                None
            },
            None => None,
        }
    }
}

/// `min(0.55 + count * 0.05, 0.75)`, the count taken as a `u32`.
pub open spec fn anti_confidence(count: usize) -> Option<Dec> {
    match decimal::add_spec(
        Some(decimal::dec_lit(55, 2)),
        decimal::mul_spec(Some(dec_of_u32(count as int)), Some(decimal::dec_lit(5, 2))),
    ) {
        Some(c) => Some(decimal::dec_min(c, decimal::dec_lit(75, 2))),
        None => None,
    }
}

pub open spec fn opposite(dir: SignalDirection) -> SignalDirection {
    if dir == SignalDirection::Long {
        SignalDirection::Short
    } else {
        SignalDirection::Long
    }
}

pub open spec fn direction_debug(dir: SignalDirection) -> Seq<char> {
    match dir {
        SignalDirection::Long => "Long"@,
        SignalDirection::Short => "Short"@,
        SignalDirection::Flat => "Flat"@,
        SignalDirection::ReduceLong => "ReduceLong"@,
        SignalDirection::ReduceShort => "ReduceShort"@,
    }
}

/// The direction's name (as `{:?}` writes it).
fn direction_name(dir: SignalDirection) -> (r: &'static str)
    ensures
        r@ == direction_debug(dir),
{
    match dir {
        SignalDirection::Long => "Long",
        SignalDirection::Short => "Short",
        SignalDirection::Flat => "Flat",
        SignalDirection::ReduceLong => "ReduceLong",
        SignalDirection::ReduceShort => "ReduceShort",
    }
}

impl AntiConsensus {
    /// Builds the strategy from its parameters (defaults: consensus of 3,
    /// dampening 0.3, contrarian signals on, ATR multipliers 1.5 and 2,
    /// cooldown 10).
    pub fn new(params: &Vec<(String, ParamValue)>) -> (r: Self)
        ensures
            r.name@ == param_text(params@, "name"@, "anti_consensus"@),
            r.min_consensus_count == param_u64(params@, "min_consensus_count"@, 3) as usize,
            r.dampening_factor == param_dec(params@, "dampening_factor"@, decimal::dec_lit(3, 1)),
            r.generate_contrarian == param_bool(params@, "generate_contrarian"@, true),
            r.atr_stop_multiplier == param_dec(params@, "atr_stop_multiplier"@, decimal::dec_lit(15, 1)),
            r.atr_target_multiplier == param_dec(
                params@,
                "atr_target_multiplier"@,
                decimal::dec_lit(2, 0),
            ),
            r.cooldown == param_u64(params@, "cooldown"@, 10) as u32,
            r.bars_since_signal == 0,
            r.recent_signals@.len() == 0,
            r.current_bar == 0,
    {
        AntiConsensus {
            name: get_text(params, "name", "anti_consensus"),
            min_consensus_count: get_u64(params, "min_consensus_count", 3) as usize,
            dampening_factor: get_dec(params, "dampening_factor", lit_dec(3, 1)),
            generate_contrarian: get_bool(params, "generate_contrarian", true),
            atr_stop_multiplier: get_dec(params, "atr_stop_multiplier", lit_dec(15, 1)),
            atr_target_multiplier: get_dec(params, "atr_target_multiplier", lit_dec(2, 0)),
            cooldown: get_u64(params, "cooldown", 10) as u32,
            bars_since_signal: 0,
            recent_signals: Vec::new(),
            current_bar: 0,
        }
    }

    /// Records a signal of another strategy on the current bar, forgetting
    /// the records from before the previous bar.
    pub fn record_signal(&mut self, strategy: &str, direction: SignalDirection, confidence: Dec)
        ensures
            final(self).recent_signals@.len() > 0,
            final(self).recent_signals@.drop_last() == drop_before(
                old(self).recent_signals@,
                keep_from(old(self).current_bar),
            ),
            final(self).recent_signals@.last().strategy@ == strategy@,
            final(self).recent_signals@.last().direction == direction,
            final(self).recent_signals@.last().confidence == confidence,
            final(self).recent_signals@.last().bar_index == old(self).current_bar,
            *final(self) == (AntiConsensus { recent_signals: final(self).recent_signals, ..*old(self) }),
    {
        let cutoff: u64 = if self.current_bar >= 1 {
            self.current_bar - 1
        } else {
            0
        };
        let ghost target = drop_before(self.recent_signals@, keep_from(self.current_bar));
        let mut v: Vec<SignalRecord> = Vec::new();
        std::mem::swap(&mut v, &mut self.recent_signals);
        while v.len() > 0 && v[0].bar_index < cutoff
            invariant
                drop_before(v@, cutoff as int) == target,
                cutoff as int == keep_from(self.current_bar),
            decreases v@.len(),
        {
            assert(v@.drop_first() =~= v@.subrange(1, v@.len() as int));
            v.remove(0);
        }
        v.push(
            SignalRecord {
                strategy: String::from_str(strategy),
                direction,
                confidence,
                bar_index: self.current_bar,
            },
        );
        self.recent_signals = v;
        assert(self.recent_signals@.drop_last() =~= target);
    }

    /// The consensus among the signals recorded on the current bar.
    pub fn detect_consensus(&self) -> (r: Option<(SignalDirection, usize)>)
        ensures
            r == consensus_spec(*self),
    {
        let s = &self.recent_signals;
        let mut total: usize = 0;
        let mut long_count: usize = 0;
        let mut short_count: usize = 0;
        let mut i: usize = 0;
        while i < s.len()
            invariant
                i <= s@.len(),
                total == count_on_bar(s@.subrange(0, i as int), self.current_bar),
                long_count == count_dir_on_bar(
                    s@.subrange(0, i as int),
                    self.current_bar,
                    SignalDirection::Long,
                ),
                short_count == count_dir_on_bar(
                    s@.subrange(0, i as int),
                    self.current_bar,
                    SignalDirection::Short,
                ),
                total <= i,
                long_count <= i,
                short_count <= i,
            decreases s@.len() - i,
        {
            assert(s@.subrange(0, i + 1).drop_last() =~= s@.subrange(0, i as int));
            if s[i].bar_index == self.current_bar {
                total = total + 1;
                match s[i].direction {
                    SignalDirection::Long => {
                        long_count = long_count + 1;
                    },
                    SignalDirection::Short => {
                        short_count = short_count + 1;
                    },
                    _ => {},
                }
            }
            i = i + 1;
        }
        assert(s@.subrange(0, s@.len() as int) =~= s@);
        if total < self.min_consensus_count {
            None
        } else if long_count == total {
            Some((SignalDirection::Long, total))
        } else if short_count == total {
            Some((SignalDirection::Short, total))
        } else {
            None
        }
    }
}

impl Strategy for AntiConsensus {
    open spec fn name_spec(&self) -> Seq<char> {
        self.name@
    }

    open spec fn bar_relation(
        &self,
        candle: Candle,
        features: FeatureRow,
        position: Option<Position>,
        after: Self,
        r: Option<Signal>,
    ) -> bool {
        let s1 = anti_counted(*self);
        match anti_decision(s1, features, position) {
            None => r is None && after == s1,
            Some(found) => {
                let dir = opposite(found.0);
                let atr = features.atr_14->0;
                let conf = anti_confidence(found.1);
                let unc = decimal::sub_spec(Some(decimal::dec_lit(1, 0)), conf);
                let long = dir == SignalDirection::Long;
                let stop = if long {
                    below_by(candle.close, atr, s1.atr_stop_multiplier)
                } else {
                    above_by(candle.close, atr, s1.atr_stop_multiplier)
                };
                let target = if long {
                    above_by(candle.close, atr, s1.atr_target_multiplier)
                } else {
                    below_by(candle.close, atr, s1.atr_target_multiplier)
                };
                if conf is Some && unc is Some && stop is Some && target is Some {
                    &&& r is Some
                    &&& signal_is(
                        r->0,
                        s1.name@,
                        candle,
                        dir,
                        s1.dampening_factor,
                        conf->0,
                        stop,
                        target,
                        Some(15),
                    )
                    &&& r->0.metadata.uncertainty_score == unc
                    &&& r->0.metadata.regime is None
                    &&& r->0.metadata.risk_overrides@.len() == 1
                    &&& r->0.metadata.risk_overrides@[0]@ == "Fading "@ + usize_display(found.1)
                        + "-strategy consensus"@
                    &&& after == (AntiConsensus { bars_since_signal: 0, ..s1 })
                } else {
                    r is None && after == s1
                }
            },
        }
    }

    open spec fn reset_relation(&self, after: Self) -> bool {
        &&& after.recent_signals@.len() == 0
        &&& after == (AntiConsensus {
            bars_since_signal: 0,
            current_bar: 0,
            recent_signals: after.recent_signals,
            ..*self
        })
    }

    fn name(&self) -> (r: &str)
        ensures
            r@ == self.name@,
    {
        self.name.as_str()
    }

    fn on_bar(
        &mut self,
        candle: &Candle,
        features: &FeatureRow,
        current_position: Option<&Position>,
    ) -> (r: Option<Signal>)

    {
        if self.current_bar < u64::MAX {
            self.current_bar = self.current_bar + 1;
        }
        self.bars_since_signal = count_bar(self.bars_since_signal);
        if self.bars_since_signal < self.cooldown {
            return None;
        }
        let (has_position, _) = position_state(current_position);
        if has_position || !self.generate_contrarian {
            return None;
        }
        let atr = match features.atr_14 {
            Some(v) => v,
            None => return None,
        };
        let (consensus_direction, consensus_count) = match self.detect_consensus() {
            Some(found) => found,
            None => return None,
        };
        let rsi = match features.rsi_14 {
            Some(v) => v,
            None => lit_dec(50, 0),
        };
        let fade = match consensus_direction {
            SignalDirection::Long => rsi.gt(&lit_dec(65, 0)),
            SignalDirection::Short => rsi.lt(&lit_dec(35, 0)),
            _ => false,
        };
        if !fade {
            return None;
        }
        let contrarian = if consensus_direction == SignalDirection::Long {
            SignalDirection::Short
        } else {
            SignalDirection::Long
        };
        let conf = match decimal::add_opt(
            Some(lit_dec(55, 2)),
            Dec::from_u32(consensus_count as u32).mul(lit_dec(5, 2)),
        ) {
            Some(c) => Some(c.min(lit_dec(75, 2))),
            None => None,
        };
        let unc = decimal::sub_opt(Some(lit_dec(1, 0)), conf);
        let (stop, target) = if contrarian == SignalDirection::Long {
            (
                decimal::sub_opt(Some(candle.close), atr.mul(self.atr_stop_multiplier)),
                decimal::add_opt(Some(candle.close), atr.mul(self.atr_target_multiplier)),
            )
        } else {
            (
                decimal::add_opt(Some(candle.close), atr.mul(self.atr_stop_multiplier)),
                decimal::sub_opt(Some(candle.close), atr.mul(self.atr_target_multiplier)),
            )
        };
        let confidence = match conf {
            Some(c) => c,
            None => return None,
        };
        if unc.is_none() || stop.is_none() || target.is_none() {
            return None;
        }
        self.bars_since_signal = 0;
        let mut inputs: Vec<(String, String)> = Vec::new();
        inputs.push(input("consensus_direction", String::from_str(direction_name(consensus_direction))));
        inputs.push(input("consensus_count", usize_to_string(consensus_count)));
        inputs.push(input("rsi", rsi.to_string()));
        inputs.push(input("reason", String::from_str("anti_consensus_fade")));
        let mut meta = metadata(inputs, unc, None);
        meta.risk_overrides.push(concat3("Fading ", usize_to_string(consensus_count), "-strategy consensus"));
        Some(
            make_signal(
                &self.name,
                candle,
                contrarian,
                self.dampening_factor,
                confidence,
                stop,
                target,
                Some(15),
                meta,
            ),
        )
    }

    /// What `params` lists for this state.
    open spec fn params_relation(&self, r: Seq<(String, ParamValue)>) -> bool {
        &&& (r.len() == 3)
        &&& (r[0].0@ == "min_consensus_count"@)
        &&& (r[1].0@ == "dampening_factor"@)
        &&& (r[2].0@ == "generate_contrarian"@)
        &&& (r[0].1 == ParamValue::UInt(self.min_consensus_count as u64))
        &&& (r[1].1 matches ParamValue::Text(t)
            && t@ == decimal::decimal_display(self.dampening_factor))
        &&& (r[2].1 == ParamValue::Flag(self.generate_contrarian))
    }

    fn params(&self) -> (r: Vec<(String, ParamValue)>)
        ensures
            r@.len() == 3,
            r@[0].0@ == "min_consensus_count"@,
            r@[1].0@ == "dampening_factor"@,
            r@[2].0@ == "generate_contrarian"@,
            r@[0].1 == ParamValue::UInt(self.min_consensus_count as u64),
            r@[1].1 matches ParamValue::Text(t) && t@ == decimal::decimal_display(self.dampening_factor),
            r@[2].1 == ParamValue::Flag(self.generate_contrarian),
    {
        let mut m: Vec<(String, ParamValue)> = Vec::new();
        m.push((String::from_str("min_consensus_count"), ParamValue::UInt(self.min_consensus_count as u64)));
        m.push(
            (String::from_str("dampening_factor"), ParamValue::Text(self.dampening_factor.to_string())),
        );
        m.push((String::from_str("generate_contrarian"), ParamValue::Flag(self.generate_contrarian)));
        m
    }

    fn reset(&mut self)

    {
        self.bars_since_signal = 0;
        self.current_bar = 0;
        self.recent_signals = Vec::new();
    }

    fn cooldown_bars(&self) -> (r: u32)
        ensures
            r == self.cooldown,
    {
        self.cooldown
    }
}

/// Anti-consensus entries protect themselves: with a positive ATR, positive
/// multipliers and exact decimal offsets, a long's stop is below the entry
/// and its target above, and a short's stop is above the entry and its
/// target below.
pub proof fn law_anti_consensus_levels_bracket_entry(
    s0: AntiConsensus,
    candle: Candle,
    features: FeatureRow,
    position: Option<Position>,
    after: AntiConsensus,
    sig: Signal,
)
    requires
        s0.bar_relation(candle, features, position, after, Some(sig)),
        features.atr_14 matches Some(atr) && atr@ > 0,
        s0.atr_stop_multiplier@ > 0,
        exact_offset(candle.close, features.atr_14->0, s0.atr_stop_multiplier),
        s0.atr_target_multiplier@ > 0,
        exact_offset(candle.close, features.atr_14->0, s0.atr_target_multiplier),
    ensures
        stop_on_loss_side(sig),
        levels_bracket_entry(sig),
{
    let atr = features.atr_14->0;
    lemma_offset_sides(candle.close, atr, s0.atr_stop_multiplier);
    lemma_offset_sides(candle.close, atr, s0.atr_target_multiplier);
}

} // verus!
