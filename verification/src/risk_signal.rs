//! A strategy that reads the system's own risk events (volatility spikes,
//! rejections, stale data) as market signals: it closes positions when
//! risk events accumulate and shorts volatility spikes with elevated RSI.
use vstd::prelude::*;
use crate::decimal::{self, Dec};
use crate::config::{ParamValue, usize_to_string, usize_display};
use crate::features::FeatureRow;
use crate::indicators::{self, sum, sum_spec, dec_of_u32};
use crate::types::{Candle, Position, PositionSide, Signal, SignalDirection, SignalMetadata};
use crate::strategy::{
    Strategy, lit_dec, get_u64, get_dec, get_text, make_signal, input, position_state,
    param_u64, param_dec, param_text, has_open_position, deref_position, signal_is, next_bar,
    count_bar, below_by, above_by,
    exact_offset, lemma_offset_sides, levels_bracket_entry, stop_on_loss_side,
};

verus! {

/// Kinds of risk event.
#[derive(Clone, Copy, Debug, PartialEq, Eq, Structural)]
pub enum RiskEventType {
    VolatilitySpike,
    OrderRejections,
    StaleData,
    SpreadWidening,
    ConnectivityIssue,
}

/// A risk event reported to the strategy.
#[derive(Clone, Copy, Debug)]
pub struct RiskEvent {
    pub event_type: RiskEventType,
    pub severity: Dec,
    pub timestamp_ms: i64,
}

/// Risk-signal strategy.
#[derive(Clone, Debug)]
pub struct RiskSignalStrategy {
    pub name: String,
    pub vol_spike_threshold: Dec,
    pub risk_event_threshold: usize,
    pub risk_event_lookback: usize,
    pub atr_stop_multiplier: Dec,
    pub atr_target_multiplier: Dec,
    pub cooldown: u32,
    pub bars_since_signal: u32,
    pub risk_events: Vec<RiskEvent>,
    pub vol_history: Vec<Dec>,
}

/// `s` with `x` appended, dropping the oldest item when that makes it
/// longer than `cap`.
pub open spec fn push_bounded<T>(s: Seq<T>, x: T, cap: nat) -> Seq<T> {
    let t = s.push(x);
    if t.len() > cap {
        t.drop_first()
    } else {
        t
    }
}

/// Whether `current` is more than `threshold` times the average of the
/// history (at least five values, positive average).
pub open spec fn vol_spike_spec(hist: Seq<Dec>, current: Dec, threshold: Dec) -> bool {
    if hist.len() < 5 {
        false
    } else {
        match decimal::div_spec(sum_spec(hist), Some(dec_of_u32(hist.len() as int))) {
            Some(avg) => avg@ > 0 && match decimal::div_spec(Some(current), Some(avg)) {
                Some(q) => q@ > threshold@,
                None => false,
            },
            None => false,
        }
    }
}

/// Number of events stamped after `ts - lookback * 60000`.
pub open spec fn events_since(events: Seq<RiskEvent>, ts: i64, lookback: usize) -> nat
    decreases events.len(),
{
    if events.len() == 0 {
        0
    } else {
        events_since(events.drop_last(), ts, lookback) + if events.last().timestamp_ms > ts - (
        lookback as i64) * 60000 {
            1nat
        } else {
            0nat
        }
    }
}

impl RiskSignalStrategy {
    /// Builds the strategy from its parameters (defaults: spike threshold 2,
    /// 2 events within 5 bars, ATR multipliers 1.5 and 2.5, cooldown 5).
    pub fn new(params: &Vec<(String, ParamValue)>) -> (r: Self)
        ensures
            r.name@ == param_text(params@, "name"@, "risk_signal"@),
            r.vol_spike_threshold == param_dec(
                params@,
                "vol_spike_threshold"@,
                decimal::dec_lit(2, 0),
            ),
            r.risk_event_threshold == param_u64(params@, "risk_event_threshold"@, 2) as usize,
            r.risk_event_lookback == param_u64(params@, "risk_event_lookback"@, 5) as usize,
            r.atr_stop_multiplier == param_dec(
                params@,
                "atr_stop_multiplier"@,
                decimal::dec_lit(15, 1),
            ),
            r.atr_target_multiplier == param_dec(
                params@,
                "atr_target_multiplier"@,
                decimal::dec_lit(25, 1),
            ),
            r.cooldown == param_u64(params@, "cooldown"@, 5) as u32,
            r.bars_since_signal == 0,
            r.risk_events@.len() == 0,
            r.vol_history@.len() == 0,
    {
        RiskSignalStrategy {
            name: get_text(params, "name", "risk_signal"),
            vol_spike_threshold: get_dec(params, "vol_spike_threshold", lit_dec(2, 0)),
            risk_event_threshold: get_u64(params, "risk_event_threshold", 2) as usize,
            risk_event_lookback: get_u64(params, "risk_event_lookback", 5) as usize,
            atr_stop_multiplier: get_dec(params, "atr_stop_multiplier", lit_dec(15, 1)),
            atr_target_multiplier: get_dec(params, "atr_target_multiplier", lit_dec(25, 1)),
            cooldown: get_u64(params, "cooldown", 5) as u32,
            bars_since_signal: 0,
            risk_events: Vec::new(),
            vol_history: Vec::new(),
        }
    }

    /// Records a risk event, keeping the latest 100.
    pub fn report_event(&mut self, event: RiskEvent)
        ensures
            final(self).risk_events@ == push_bounded(old(self).risk_events@, event, 100),
            *final(self) == (RiskSignalStrategy { risk_events: final(self).risk_events, ..*old(self) }),
    {
        self.risk_events.push(event);
        if self.risk_events.len() > 100 {
            self.risk_events.remove(0);
        }
    }

    /// Number of events within the lookback window before `bar_timestamp_ms`
    /// (one bar counted as one minute).
    pub fn recent_event_count(&self, bar_timestamp_ms: i64) -> (r: usize)
        ensures
            r == events_since(self.risk_events@, bar_timestamp_ms, self.risk_event_lookback),
    {
        let lookback_ms: i128 = (self.risk_event_lookback as i64) as i128 * 60000;
        let cutoff: i128 = bar_timestamp_ms as i128 - lookback_ms;
        let mut count: usize = 0;
        let mut i: usize = 0;
        while i < self.risk_events.len()
            invariant
                i <= self.risk_events@.len(),
                count <= i,
                lookback_ms == (self.risk_event_lookback as i64) * 60000,
                cutoff == bar_timestamp_ms - lookback_ms,
                count == events_since(
                    self.risk_events@.subrange(0, i as int),
                    bar_timestamp_ms,
                    self.risk_event_lookback,
                ),
            decreases self.risk_events@.len() - i,
        {
            assert(self.risk_events@.subrange(0, i + 1).drop_last() =~= self.risk_events@.subrange(
                0,
                i as int,
            ));
            if self.risk_events[i].timestamp_ms as i128 > cutoff {
                count = count + 1;
            }
            i = i + 1;
        }
        assert(self.risk_events@.subrange(0, i as int) =~= self.risk_events@);
        count
    }

    /// Whether `current_vol` is a spike against the recorded history.
    pub fn detect_vol_spike(&self, current_vol: Dec) -> (r: bool)
        ensures
            r == vol_spike_spec(self.vol_history@, current_vol, self.vol_spike_threshold),
    {
        if self.vol_history.len() < 5 {
            return false;
        }
        let total = sum(self.vol_history.as_slice());
        let n = self.vol_history.len();
        let avg = decimal::div_opt(total, Some(Dec::from_u32(#[verifier::truncate] (n as u32))));
        match avg {
            Some(a) => {
                if a.gt(&Dec::zero()) {
                    match current_vol.div(a) {
                        Some(q) => q.gt(&self.vol_spike_threshold),
                        None => false,
                    }
                } else {
                    false
                }
            },
            None => false,
        }
    }
}

/// The volatility history after the bar.
pub open spec fn history_after(s: RiskSignalStrategy, f: FeatureRow) -> Seq<Dec> {
    match f.realized_vol_20 {
        Some(v) => push_bounded(s.vol_history@, v, 50),
        None => s.vol_history@,
    }
}

/// The current volatility reading (30 without one).
pub open spec fn current_vol_of(f: FeatureRow) -> Dec {
    match f.realized_vol_20 {
        Some(v) => v,
        None => decimal::dec_lit(30, 0),
    }
}

/// The RSI reading (50 without one).
pub open spec fn rsi_or_neutral(f: FeatureRow) -> Dec {
    match f.rsi_14 {
        Some(v) => v,
        None => decimal::dec_lit(50, 0),
    }
}

impl Strategy for RiskSignalStrategy {
    open spec fn name_spec(&self) -> Seq<char> {
        self.name@
    }

    open spec fn bar_relation(
        &self,
        candle: Candle,
        features: FeatureRow,
        position: Option<Position>,
        after: Self,
        r: Option<Signal>,
    ) -> bool {
        let s0 = *self;
        let s1 = after;
        let hist = history_after(s0, features);
        let counted = next_bar(s0.bars_since_signal);
        let spike = vol_spike_spec(hist, current_vol_of(features), s0.vol_spike_threshold);
        let events = if features.atr_14 is Some && counted >= s0.cooldown && spike {
            push_bounded(
                s0.risk_events@,
                RiskEvent {
                    event_type: RiskEventType::VolatilitySpike,
                    severity: decimal::dec_lit(8, 1),
                    timestamp_ms: features.timestamp_ms,
                },
                100,
            )
        } else {
            s0.risk_events@
        };
        let count = events_since(events, features.timestamp_ms, s0.risk_event_lookback);
        let p = position;
        &&& s1.vol_history@ == hist
        &&& s1.risk_events@ == events
        &&& s1.name == s0.name
        &&& s1.vol_spike_threshold == s0.vol_spike_threshold
        &&& s1.risk_event_threshold == s0.risk_event_threshold
        &&& s1.risk_event_lookback == s0.risk_event_lookback
        &&& s1.atr_stop_multiplier == s0.atr_stop_multiplier
        &&& s1.atr_target_multiplier == s0.atr_target_multiplier
        &&& s1.cooldown == s0.cooldown
        &&& if counted < s0.cooldown || features.atr_14 is None || count
            < s0.risk_event_threshold {
            r is None && s1.bars_since_signal == counted
        } else if has_open_position(p) {
            &&& r is Some
            &&& signal_is(
                r->0,
                s0.name@,
                candle,
                SignalDirection::Flat,
                decimal::dec_lit(9, 1),
                decimal::dec_lit(8, 1),
                None,
                None,
                None,
            )
            &&& r->0.metadata.uncertainty_score == Some(decimal::dec_lit(2, 1))
            &&& r->0.metadata.regime is Some
            &&& r->0.metadata.regime->0@ == "risk_elevated"@
            &&& r->0.metadata.risk_overrides@.len() == 1
            &&& r->0.metadata.risk_overrides@[0]@ == usize_display(count as usize)
                + " risk events detected"@
            &&& s1.bars_since_signal == 0
        } else {
            let atr = features.atr_14->0;
            let stop = above_by(candle.close, atr, s0.atr_stop_multiplier);
            let target = below_by(candle.close, atr, s0.atr_target_multiplier);
            if spike && rsi_or_neutral(features)@ > decimal::dec_lit(55, 0)@ && stop is Some
                && target is Some {
                &&& r is Some
                &&& signal_is(
                    r->0,
                    s0.name@,
                    candle,
                    SignalDirection::Short,
                    decimal::dec_lit(7, 1),
                    decimal::dec_lit(6, 1),
                    stop,
                    target,
                    Some(10),
                )
                &&& r->0.metadata.uncertainty_score == Some(decimal::dec_lit(4, 1))
                &&& r->0.metadata.regime is Some
                &&& r->0.metadata.regime->0@ == "high_volatility"@
                &&& s1.bars_since_signal == 0
            } else {
                r is None && s1.bars_since_signal == counted
            }
        }
    }

    open spec fn reset_relation(&self, after: Self) -> bool {
        &&& after.bars_since_signal == 0
        &&& after.risk_events@.len() == 0
        &&& after.vol_history@.len() == 0
        &&& after.name == self.name
        &&& after.vol_spike_threshold == self.vol_spike_threshold
        &&& after.risk_event_threshold == self.risk_event_threshold
        &&& after.risk_event_lookback == self.risk_event_lookback
        &&& after.atr_stop_multiplier == self.atr_stop_multiplier
        &&& after.atr_target_multiplier == self.atr_target_multiplier
        &&& after.cooldown == self.cooldown
    }

    fn name(&self) -> (r: &str)
        ensures
            r@ == self.name@,
    {
        self.name.as_str()
    }

    fn on_bar(
        &mut self,
        candle: &Candle,
        features: &FeatureRow,
        current_position: Option<&Position>,
    ) -> (r: Option<Signal>)

    {
        self.bars_since_signal = count_bar(self.bars_since_signal);
        if let Some(vol) = features.realized_vol_20 {
            self.vol_history.push(vol);
            if self.vol_history.len() > 50 {
                self.vol_history.remove(0);
            }
        }
        if self.bars_since_signal < self.cooldown {
            return None;
        }
        let atr = match features.atr_14 {
            Some(v) => v,
            None => return None,
        };
        let current_vol = match features.realized_vol_20 {
            Some(v) => v,
            None => lit_dec(30, 0),
        };
        let timestamp_ms = features.timestamp_ms;
        let vol_spike = self.detect_vol_spike(current_vol);
        if vol_spike {
            self.report_event(
                RiskEvent {
                    event_type: RiskEventType::VolatilitySpike,
                    severity: lit_dec(8, 1),
                    timestamp_ms,
                },
            );
        }
        let event_count = self.recent_event_count(timestamp_ms);
        if event_count < self.risk_event_threshold {
            return None;
        }
        let (has_position, position_side) = position_state(current_position);
        if has_position {
            self.bars_since_signal = 0;
            let mut inputs: Vec<(String, String)> = Vec::new();
            inputs.push(input("risk_event_count", usize_to_string(event_count)));
            inputs.push(
                input(
                    "vol_spike",
                    String::from_str(
                        if vol_spike {
                            "true"
                        } else {
                            "false"
                        },
                    ),
                ),
            );
            inputs.push(input("current_vol", current_vol.to_string()));
            inputs.push(input("reason", String::from_str("risk_signal_exit")));
            let mut note = usize_to_string(event_count);
            note.append(" risk events detected");
            let mut overrides: Vec<String> = Vec::new();
            overrides.push(note);
            let meta = SignalMetadata {
                signal_inputs: inputs,
                uncertainty_score: Some(lit_dec(2, 1)),
                regime: Some(String::from_str("risk_elevated")),
                risk_overrides: overrides,
            };
            return Some(
                make_signal(
                    &self.name,
                    candle,
                    SignalDirection::Flat,
                    lit_dec(9, 1),
                    lit_dec(8, 1),
                    None,
                    None,
                    None,
                    meta,
                ),
            );
        }
        if vol_spike {
            let rsi = match features.rsi_14 {
                Some(v) => v,
                None => lit_dec(50, 0),
            };
            if rsi.gt(&lit_dec(55, 0)) {
                let stop = decimal::add_opt(Some(candle.close), atr.mul(self.atr_stop_multiplier));
                let target = decimal::sub_opt(
                    Some(candle.close),
                    atr.mul(self.atr_target_multiplier),
                );
                if stop.is_none() || target.is_none() {
                    return None;
                }
                self.bars_since_signal = 0;
                let mut inputs: Vec<(String, String)> = Vec::new();
                inputs.push(input("risk_event_count", usize_to_string(event_count)));
                inputs.push(input("vol_spike", String::from_str("true")));
                inputs.push(input("current_vol", current_vol.to_string()));
                inputs.push(input("rsi", rsi.to_string()));
                inputs.push(input("reason", String::from_str("risk_signal_vol_spike_short")));
                let meta = SignalMetadata {
                    signal_inputs: inputs,
                    uncertainty_score: Some(lit_dec(4, 1)),
                    regime: Some(String::from_str("high_volatility")),
                    risk_overrides: Vec::new(),
                };
                return Some(
                    make_signal(
                        &self.name,
                        candle,
                        SignalDirection::Short,
                        lit_dec(7, 1),
                        lit_dec(6, 1),
                        stop,
                        target,
                        Some(10),
                        meta,
                    ),
                );
            }
        }
        None
    }

    /// What `params` lists for this state.
    open spec fn params_relation(&self, r: Seq<(String, ParamValue)>) -> bool {
        &&& (r.len() == 2)
        &&& (r[0].0@ == "vol_spike_threshold"@)
        &&& (r[1].0@ == "risk_event_threshold"@)
        &&& (r[0].1 matches ParamValue::Text(t)
            && t@ == decimal::decimal_display(self.vol_spike_threshold))
        &&& (r[1].1 == ParamValue::UInt(self.risk_event_threshold as u64))
    }

    fn params(&self) -> (r: Vec<(String, ParamValue)>)
        ensures
            r@.len() == 2,
            r@[0].0@ == "vol_spike_threshold"@,
            r@[1].0@ == "risk_event_threshold"@,
            r@[0].1 matches ParamValue::Text(t) && t@ == decimal::decimal_display(
                self.vol_spike_threshold,
            ),
            r@[1].1 == ParamValue::UInt(self.risk_event_threshold as u64),
    {
        let mut m: Vec<(String, ParamValue)> = Vec::new();
        m.push(
            (
                String::from_str("vol_spike_threshold"),
                ParamValue::Text(self.vol_spike_threshold.to_string()),
            ),
        );
        m.push(
            (
                String::from_str("risk_event_threshold"),
                ParamValue::UInt(self.risk_event_threshold as u64),
            ),
        );
        m
    }

    fn reset(&mut self)

    {
        self.bars_since_signal = 0;
        self.risk_events.clear();
        self.vol_history.clear();
    }

    fn cooldown_bars(&self) -> (r: u32)
        ensures
            r == self.cooldown,
    {
        self.cooldown
    }
}

/// Risk-signal entries protect themselves: with a positive ATR, positive
/// multipliers and exact decimal offsets, a long's stop is below the entry
/// and its target above, and a short's stop is above the entry and its
/// target below.
pub proof fn law_risk_signal_levels_bracket_entry(
    s0: RiskSignalStrategy,
    candle: Candle,
    features: FeatureRow,
    position: Option<Position>,
    after: RiskSignalStrategy,
    sig: Signal,
)
    requires
        s0.bar_relation(candle, features, position, after, Some(sig)),
        features.atr_14 matches Some(atr) && atr@ > 0,
        s0.atr_stop_multiplier@ > 0,
        exact_offset(candle.close, features.atr_14->0, s0.atr_stop_multiplier),
        s0.atr_target_multiplier@ > 0,
        exact_offset(candle.close, features.atr_14->0, s0.atr_target_multiplier),
    ensures
        stop_on_loss_side(sig),
        levels_bracket_entry(sig),
{
    let atr = features.atr_14->0;
    lemma_offset_sides(candle.close, atr, s0.atr_stop_multiplier);
    lemma_offset_sides(candle.close, atr, s0.atr_target_multiplier);
}

} // verus!
