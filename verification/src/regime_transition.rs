//! Regime transition: trades the change between market regimes.  When the
//! regime seen over the recent bars becomes unstable, enter in the
//! direction of the emerging regime.
use vstd::prelude::*;
use crate::decimal::{self, Dec, MAX_MANTISSA};
use crate::config::ParamValue;
use crate::features::FeatureRow;
use crate::types::{Candle, Position, Signal, SignalDirection};
use crate::risk_signal::push_bounded;
use crate::strategy::{
    Strategy, lit, lit_dec, get_u64, get_dec, get_text, make_signal, metadata, input,
    position_state, param_u64, param_dec, param_text, has_open_position, deref_position, signal_is,
    next_bar, count_bar, below_by, above_by,
    exact_offset, lemma_offset_sides, levels_bracket_entry, stop_on_loss_side,
};

verus! {

/// The most regime readings kept.
pub const MAX_REGIME_HISTORY: usize = 50;

/// The regime of a single bar.
#[derive(Clone, Copy, Debug, PartialEq, Eq, Structural)]
pub enum RegimeState {
    TrendingUp,
    TrendingDown,
    Ranging,
    HighVol,
    LowVol,
}

/// The regime of a bar: high volatility above 60, low volatility when the
/// bands are narrower than 0.015 and volatility is under 15, otherwise a
/// trend beyond +-2 or a range (missing readings: trend 0, volatility 30,
/// band width 0.03).
pub open spec fn regime_state_spec(f: FeatureRow) -> RegimeState {
    let trend = match f.trend_strength {
        Some(v) => v@,
        None => 0,
    };
    let vol = match f.realized_vol_20 {
        Some(v) => v@,
        None => lit(30, 0),
    };
    let bb_w = match f.bb_width {
        Some(v) => v@,
        None => lit(3, 2),
    };
    if vol > lit(60, 0) {
        RegimeState::HighVol
    } else if bb_w < lit(15, 3) && vol < lit(15, 0) {
        RegimeState::LowVol
    } else if trend > lit(2, 0) {
        RegimeState::TrendingUp
    } else if trend < -lit(2, 0) {
        RegimeState::TrendingDown
    } else {
        RegimeState::Ranging
    }
}

pub open spec fn regime_state_debug(r: RegimeState) -> Seq<char> {
    match r {
        RegimeState::TrendingUp => "TrendingUp"@,
        RegimeState::TrendingDown => "TrendingDown"@,
        RegimeState::Ranging => "Ranging"@,
        RegimeState::HighVol => "HighVol"@,
        RegimeState::LowVol => "LowVol"@,
    }
}

impl RegimeState {
    /// Classifies a bar from its features.
    pub fn from_features(features: &FeatureRow) -> (r: RegimeState)
        ensures
            r == regime_state_spec(*features),
    {
        let trend = match features.trend_strength {
            Some(v) => v,
            None => Dec::zero(),
        };
        let vol = match features.realized_vol_20 {
            Some(v) => v,
            None => lit_dec(30, 0),
        };
        let bb_w = match features.bb_width {
            Some(v) => v,
            None => lit_dec(3, 2),
        };
        let two = lit_dec(2, 0);
        if vol.gt(&lit_dec(60, 0)) {
            RegimeState::HighVol
        } else if bb_w.lt(&lit_dec(15, 3)) && vol.lt(&lit_dec(15, 0)) {
            RegimeState::LowVol
        } else if trend.gt(&two) {
            RegimeState::TrendingUp
        } else if trend.lt(&two.neg()) {
            RegimeState::TrendingDown
        } else {
            RegimeState::Ranging
        }
    }

    /// The variant's name (as `{:?}` writes it).
    pub fn debug_name(&self) -> (r: &'static str)
        ensures
            r@ == regime_state_debug(*self),
    {
        match self {
            RegimeState::TrendingUp => "TrendingUp",
            RegimeState::TrendingDown => "TrendingDown",
            RegimeState::Ranging => "Ranging",
            RegimeState::HighVol => "HighVol",
            RegimeState::LowVol => "LowVol",
        }
    }
}

/// How many readings of `s` equal `x`.
pub open spec fn count_state(s: Seq<RegimeState>, x: RegimeState) -> nat
    decreases s.len(),
{
    if s.len() == 0 {
        0
    } else {
        count_state(s.drop_last(), x) + if s.last() == x {
            1nat
        } else {
            0nat
        }
    }
}

/// The last `lookback` readings (all of them when there are fewer).
pub open spec fn recent_states(h: Seq<RegimeState>, lookback: usize) -> Seq<RegimeState> {
    if h.len() >= lookback {
        h.subrange(h.len() - lookback, h.len() as int)
    } else {
        h
    }
}

/// The share of the recent readings that match the latest one, as the
/// decimal quotient `matching / recent`; one with no readings.
pub open spec fn stability_spec(h: Seq<RegimeState>, lookback: usize) -> Dec {
    let recent = recent_states(h, lookback);
    if h.len() == 0 || recent.len() == 0 {
        decimal::dec_lit(1, 0)
    } else {
        decimal::decimal_checked_div(
            decimal::dec_lit(count_state(recent, h.last()) as int, 0),
            decimal::dec_lit(recent.len() as int, 0),
        )->0
    }
}

proof fn lemma_count_bounded(s: Seq<RegimeState>, x: RegimeState)
    ensures
        count_state(s, x) <= s.len(),
    decreases s.len(),
{
    if s.len() > 0 {
        lemma_count_bounded(s.drop_last(), x);
    }
}

/// The regime readings of the recent bars, at most `MAX_REGIME_HISTORY`.
#[derive(Debug)]
pub struct RegimeHistory {
    states: Vec<RegimeState>,
}

impl View for RegimeHistory {
    type V = Seq<RegimeState>;

    closed spec fn view(&self) -> Seq<RegimeState> {
        self.states@
    }
}

impl Clone for RegimeHistory {
    fn clone(&self) -> (r: Self)
        ensures
            r@ == self@,
    {
        proof {
            use_type_invariant(self);
        }
        let states = self.states.clone();
        assert(states@ =~= self.states@);
        RegimeHistory { states }
    }
}

impl RegimeHistory {
    #[verifier::type_invariant]
    spec fn history_wf(self) -> bool {
        self.states@.len() <= MAX_REGIME_HISTORY
    }

    /// No readings.
    pub fn new() -> (r: Self)
        ensures
            r@.len() == 0,
    {
        RegimeHistory { states: Vec::new() }
    }

    /// Appends a reading, dropping the oldest beyond the limit.
    pub fn push(&mut self, state: RegimeState)
        ensures
            final(self)@ == push_bounded(old(self)@, state, MAX_REGIME_HISTORY as nat),
    {
        proof {
            use_type_invariant(&*self);
        }
        let mut v: Vec<RegimeState> = Vec::new();
        std::mem::swap(&mut v, &mut self.states);
        v.push(state);
        if v.len() > MAX_REGIME_HISTORY {
            v.remove(0);
        }
        self.states = v;
    }

    /// The number of readings.
    pub fn len(&self) -> (r: usize)
        ensures
            r == self@.len(),
    {
        self.states.len()
    }

    /// Forgets every reading.
    pub fn clear(&mut self)
        ensures
            final(self)@.len() == 0,
    {
        self.states = Vec::new();
    }

    /// Regime stability over the last `lookback` readings.
    pub fn stability(&self, lookback: usize) -> (r: Dec)
        ensures
            r == stability_spec(self@, lookback),
    {
        proof {
            use_type_invariant(self);
        }
        let n = self.states.len();
        if n == 0 {
            return lit_dec(1, 0);
        }
        let current = self.states[n - 1];
        let start: usize = if n >= lookback {
            n - lookback
        } else {
            0
        };
        if start == n {
            return lit_dec(1, 0);
        }
        let ghost recent = recent_states(self@, lookback);
        assert(recent =~= self.states@.subrange(start as int, n as int));
        let mut matching: usize = 0;
        let mut i: usize = start;
        while i < n
            invariant
                start <= i <= n,
                n == self.states@.len(),
                n <= MAX_REGIME_HISTORY,
                current == self.states@[n - 1],
                matching == count_state(self.states@.subrange(start as int, i as int), current),
                matching <= i - start,
            decreases n - i,
        {
            assert(self.states@.subrange(start as int, i + 1).drop_last() =~= self.states@.subrange(
                start as int,
                i as int,
            ));
            if self.states[i] == current {
                matching = matching + 1;
            }
            i = i + 1;
        }
        let len = n - start;
        proof {
            assert(self.states@.subrange(start as int, n as int) =~= recent);
            lemma_count_bounded(recent, current);
            decimal::lemma_lit(matching as int, 0);
            decimal::lemma_lit(len as int, 0);
            decimal::lemma_pow10_positive(28);
            assert(matching * decimal::pow10(28) <= len * decimal::pow10(28)) by (nonlinear_arith)
                requires
                    matching <= len,
                    decimal::pow10(28) > 0,
            ;
            assert(len * decimal::pow10(28) > 0) by (nonlinear_arith)
                requires
                    len > 0,
                    decimal::pow10(28) > 0,
            ;
            assert(MAX_REGIME_HISTORY < MAX_MANTISSA);
        }
        Dec::from_u32(matching as u32).div(Dec::from_u32(len as u32)).unwrap()
    }
}

/// Trades regime transitions.
#[derive(Clone, Debug)]
pub struct RegimeTransition {
    pub name: String,
    pub stability_threshold: Dec,
    pub stability_lookback: usize,
    pub min_emerging_trend: Dec,
    pub atr_stop_multiplier: Dec,
    pub atr_target_multiplier: Dec,
    pub cooldown: u32,
    pub bars_since_signal: u32,
    pub regime_history: RegimeHistory,
}

pub open spec fn one_if(b: bool) -> int {
    if b {
        1
    } else {
        0
    }
}

/// The direction of the emerging regime: at least two of trend beyond the
/// minimum, RSI beyond 55/45 (50 without a reading) and MACD beyond zero
/// (zero without a reading) pointing the same way; long wins a tie.
pub open spec fn emerging_spec(s: RegimeTransition, f: FeatureRow) -> Option<SignalDirection> {
    if f.trend_strength is None {
        None
    } else {
        let trend = f.trend_strength->0@;
        let rsi = match f.rsi_14 {
            Some(v) => v@,
            None => lit(50, 0),
        };
        let macd = match f.macd {
            Some(v) => v@,
            None => 0,
        };
        let bullish = one_if(trend > s.min_emerging_trend@) + one_if(rsi > lit(55, 0)) + one_if(
            macd > 0,
        );
        let bearish = one_if(trend < -s.min_emerging_trend@) + one_if(rsi < lit(45, 0)) + one_if(
            macd < 0,
        );
        if bullish >= 2 {
            Some(SignalDirection::Long)
        } else if bearish >= 2 {
            Some(SignalDirection::Short)
        } else {
            None
        }
    }
}

/// What the strategy decides on a bar, given the regime history after the
/// bar's reading (`None`: no signal).
pub open spec fn transition_decision(
    s: RegimeTransition,
    hist: Seq<RegimeState>,
    f: FeatureRow,
    p: Option<Position>,
) -> Option<SignalDirection> {
    if next_bar(s.bars_since_signal) < s.cooldown || hist.len() < s.stability_lookback
        || has_open_position(p) || f.atr_14 is None {
        None
    } else if stability_spec(hist, s.stability_lookback)@ >= s.stability_threshold@ {
        None
    } else {
        emerging_spec(s, f)
    }
}

/// `min(0.5 + transition * 0.3, 0.85)`.
pub open spec fn transition_confidence(transition: Option<Dec>) -> Option<Dec> {
    match decimal::add_spec(
        Some(decimal::dec_lit(5, 1)),
        decimal::mul_spec(transition, Some(decimal::dec_lit(3, 1))),
    ) {
        Some(c) => Some(decimal::dec_min(c, decimal::dec_lit(85, 2))),
        None => None,
    }
}

impl RegimeTransition {
    /// Builds the strategy from its parameters (defaults: stability 0.5 over
    /// 10 bars, emerging trend 0.8, ATR multipliers 2.5 and 3.5, cooldown 8).
    pub fn new(params: &Vec<(String, ParamValue)>) -> (r: Self)
        ensures
            r.name@ == param_text(params@, "name"@, "regime_transition"@),
            r.stability_threshold == param_dec(params@, "stability_threshold"@, decimal::dec_lit(5, 1)),
            r.stability_lookback == param_u64(params@, "stability_lookback"@, 10) as usize,
            r.min_emerging_trend == param_dec(params@, "min_emerging_trend"@, decimal::dec_lit(8, 1)),
            r.atr_stop_multiplier == param_dec(params@, "atr_stop_multiplier"@, decimal::dec_lit(25, 1)),
            r.atr_target_multiplier == param_dec(
                params@,
                "atr_target_multiplier"@,
                decimal::dec_lit(35, 1),
            ),
            r.cooldown == param_u64(params@, "cooldown"@, 8) as u32,
            r.bars_since_signal == 0,
            r.regime_history@.len() == 0,
    {
        RegimeTransition {
            name: get_text(params, "name", "regime_transition"),
            stability_threshold: get_dec(params, "stability_threshold", lit_dec(5, 1)),
            stability_lookback: get_u64(params, "stability_lookback", 10) as usize,
            min_emerging_trend: get_dec(params, "min_emerging_trend", lit_dec(8, 1)),
            atr_stop_multiplier: get_dec(params, "atr_stop_multiplier", lit_dec(25, 1)),
            atr_target_multiplier: get_dec(params, "atr_target_multiplier", lit_dec(35, 1)),
            cooldown: get_u64(params, "cooldown", 8) as u32,
            bars_since_signal: 0,
            regime_history: RegimeHistory::new(),
        }
    }

    /// The share of the recent bars whose regime is the latest one.
    pub fn stability(&self) -> (r: Dec)
        ensures
            r == stability_spec(self.regime_history@, self.stability_lookback),
    {
        self.regime_history.stability(self.stability_lookback)
    }

    /// The direction the regime is turning to, when enough readings agree.
    pub fn emerging_direction(&self, features: &FeatureRow) -> (r: Option<SignalDirection>)
        ensures
            r == emerging_spec(*self, *features),
    {
        let trend = match features.trend_strength {
            Some(v) => v,
            None => return None,
        };
        let rsi = match features.rsi_14 {
            Some(v) => v,
            None => lit_dec(50, 0),
        };
        let macd = match features.macd {
            Some(v) => v,
            None => Dec::zero(),
        };
        let zero = Dec::zero();
        let mut bullish: u8 = 0;
        if trend.gt(&self.min_emerging_trend) {
            bullish = bullish + 1;
        }
        if rsi.gt(&lit_dec(55, 0)) {
            bullish = bullish + 1;
        }
        if macd.gt(&zero) {
            bullish = bullish + 1;
        }
        let mut bearish: u8 = 0;
        if trend.lt(&self.min_emerging_trend.neg()) {
            bearish = bearish + 1;
        }
        if rsi.lt(&lit_dec(45, 0)) {
            bearish = bearish + 1;
        }
        if macd.lt(&zero) {
            bearish = bearish + 1;
        }
        if bullish >= 2 {
            Some(SignalDirection::Long)
        } else if bearish >= 2 {
            Some(SignalDirection::Short)
        } else {
            None
        }
    }
}

impl Strategy for RegimeTransition {
    open spec fn name_spec(&self) -> Seq<char> {
        self.name@
    }

    open spec fn bar_relation(
        &self,
        candle: Candle,
        features: FeatureRow,
        position: Option<Position>,
        after: Self,
        r: Option<Signal>,
    ) -> bool {
        let s0 = *self;
        let counted = next_bar(s0.bars_since_signal);
        let hist = push_bounded(
            s0.regime_history@,
            regime_state_spec(features),
            MAX_REGIME_HISTORY as nat,
        );
        let s1 = after;
        &&& s1.regime_history@ == hist
        &&& match transition_decision(s0, hist, features, position) {
            None => r is None && s1 == (RegimeTransition {
                bars_since_signal: counted,
                regime_history: s1.regime_history,
                ..s0
            }),
            Some(dir) => {
                let atr = features.atr_14->0;
                let st = stability_spec(hist, s0.stability_lookback);
                let transition = decimal::sub_spec(Some(decimal::dec_lit(1, 0)), Some(st));
                let conf = transition_confidence(transition);
                let long = dir == SignalDirection::Long;
                let stop = if long {
                    below_by(candle.close, atr, s0.atr_stop_multiplier)
                } else {
                    above_by(candle.close, atr, s0.atr_stop_multiplier)
                };
                let target = if long {
                    above_by(candle.close, atr, s0.atr_target_multiplier)
                } else {
                    below_by(candle.close, atr, s0.atr_target_multiplier)
                };
                if transition is Some && conf is Some && stop is Some && target is Some {
                    &&& r is Some
                    &&& signal_is(
                        r->0,
                        s0.name@,
                        candle,
                        dir,
                        transition->0,
                        conf->0,
                        stop,
                        target,
                        Some(30),
                    )
                    &&& r->0.metadata.uncertainty_score == Some(st)
                    &&& r->0.metadata.regime is Some
                    &&& r->0.metadata.regime->0@ == "transitional"@
                    &&& s1 == (RegimeTransition {
                        bars_since_signal: 0,
                        regime_history: s1.regime_history,
                        ..s0
                    })
                } else {
                    r is None && s1 == (RegimeTransition {
                        bars_since_signal: counted,
                        regime_history: s1.regime_history,
                        ..s0
                    })
                }
            },
        }
    }

    open spec fn reset_relation(&self, after: Self) -> bool {
        &&& after.regime_history@.len() == 0
        &&& after == (RegimeTransition {
            bars_since_signal: 0,
            regime_history: after.regime_history,
            ..*self
        })
    }

    fn name(&self) -> (r: &str)
        ensures
            r@ == self.name@,
    {
        self.name.as_str()
    }

    fn on_bar(
        &mut self,
        candle: &Candle,
        features: &FeatureRow,
        current_position: Option<&Position>,
    ) -> (r: Option<Signal>)

    {
        self.bars_since_signal = count_bar(self.bars_since_signal);
        let current_regime = RegimeState::from_features(features);
        self.regime_history.push(current_regime);
        if self.bars_since_signal < self.cooldown {
            return None;
        }
        if self.regime_history.len() < self.stability_lookback {
            return None;
        }
        let (has_position, _) = position_state(current_position);
        if has_position {
            return None;
        }
        let atr = match features.atr_14 {
            Some(v) => v,
            None => return None,
        };
        let stability = self.stability();
        if stability.ge(&self.stability_threshold) {
            return None;
        }
        let direction = match self.emerging_direction(features) {
            Some(d) => d,
            None => return None,
        };
        let transition = lit_dec(1, 0).sub(stability);
        let conf = match decimal::add_opt(
            Some(lit_dec(5, 1)),
            decimal::mul_opt(transition, Some(lit_dec(3, 1))),
        ) {
            Some(c) => Some(c.min(lit_dec(85, 2))),
            None => None,
        };
        let long = direction == SignalDirection::Long;
        let (stop, target) = if long {
            (
                decimal::sub_opt(Some(candle.close), atr.mul(self.atr_stop_multiplier)),
                decimal::add_opt(Some(candle.close), atr.mul(self.atr_target_multiplier)),
            )
        } else {
            (
                decimal::add_opt(Some(candle.close), atr.mul(self.atr_stop_multiplier)),
                decimal::sub_opt(Some(candle.close), atr.mul(self.atr_target_multiplier)),
            )
        };
        let strength = match transition {
            Some(t) => t,
            None => return None,
        };
        let confidence = match conf {
            Some(c) => c,
            None => return None,
        };
        if stop.is_none() || target.is_none() {
            return None;
        }
        self.bars_since_signal = 0;
        let mut inputs: Vec<(String, String)> = Vec::new();
        inputs.push(input("stability", stability.to_string()));
        inputs.push(input("current_regime", String::from_str(current_regime.debug_name())));
        match features.trend_strength {
            Some(v) => inputs.push(input("trend_strength", v.to_string())),
            None => {},
        }
        inputs.push(input("reason", String::from_str("regime_transition_detected")));
        Some(
            make_signal(
                &self.name,
                candle,
                direction,
                strength,
                confidence,
                stop,
                target,
                Some(30),
                metadata(inputs, Some(stability), Some("transitional")),
            ),
        )
    }

    /// What `params` lists for this state.
    open spec fn params_relation(&self, r: Seq<(String, ParamValue)>) -> bool {
        &&& (r.len() == 2)
        &&& (r[0].0@ == "stability_threshold"@)
        &&& (r[1].0@ == "stability_lookback"@)
        &&& (r[0].1 matches ParamValue::Text(t)
            && t@ == decimal::decimal_display(self.stability_threshold))
        &&& (r[1].1 == ParamValue::UInt(self.stability_lookback as u64))
    }

    fn params(&self) -> (r: Vec<(String, ParamValue)>)
        ensures
            r@.len() == 2,
            r@[0].0@ == "stability_threshold"@,
            r@[1].0@ == "stability_lookback"@,
            r@[0].1 matches ParamValue::Text(t) && t@ == decimal::decimal_display(self.stability_threshold),
            r@[1].1 == ParamValue::UInt(self.stability_lookback as u64),
    {
        let mut m: Vec<(String, ParamValue)> = Vec::new();
        m.push(
            (
                String::from_str("stability_threshold"),
                ParamValue::Text(self.stability_threshold.to_string()),
            ),
        );
        m.push((String::from_str("stability_lookback"), ParamValue::UInt(self.stability_lookback as u64)));
        m
    }

    fn reset(&mut self)

    {
        self.bars_since_signal = 0;
        self.regime_history.clear();
    }

    fn cooldown_bars(&self) -> (r: u32)
        ensures
            r == self.cooldown,
    {
        self.cooldown
    }
}

/// Regime-transition entries protect themselves: with a positive ATR, positive
/// multipliers and exact decimal offsets, a long's stop is below the entry
/// and its target above, and a short's stop is above the entry and its
/// target below.
pub proof fn law_regime_transition_levels_bracket_entry(
    s0: RegimeTransition,
    candle: Candle,
    features: FeatureRow,
    position: Option<Position>,
    after: RegimeTransition,
    sig: Signal,
)
    requires
        s0.bar_relation(candle, features, position, after, Some(sig)),
        features.atr_14 matches Some(atr) && atr@ > 0,
        s0.atr_stop_multiplier@ > 0,
        exact_offset(candle.close, features.atr_14->0, s0.atr_stop_multiplier),
        s0.atr_target_multiplier@ > 0,
        exact_offset(candle.close, features.atr_14->0, s0.atr_target_multiplier),
    ensures
        stop_on_loss_side(sig),
        levels_bracket_entry(sig),
{
    let atr = features.atr_14->0;
    lemma_offset_sides(candle.close, atr, s0.atr_stop_multiplier);
    lemma_offset_sides(candle.close, atr, s0.atr_target_multiplier);
}

} // verus!
