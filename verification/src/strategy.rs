//! The strategy interface, reading of strategy parameters, and the parts
//! every strategy signal shares.
use vstd::prelude::*;
use crate::decimal::{self, Dec, MAX_MANTISSA};
use crate::config::ParamValue;
use crate::features::FeatureRow;
use crate::types::{Candle, Position, PositionSide, Signal, SignalDirection, SignalMetadata};
use crate::text::same_text;
use crate::risk::now_millis;
use crate::keyed::{
    first_match, entry_names, find_key, lemma_first_match_update, lemma_first_match_push,
    lemma_first_match_replace_item,
};

verus! {

/// A trading strategy: it sees each completed candle with its features and
/// the strategy's current position, and may emit a signal.
pub trait Strategy: Sized {
    /// The name that `name` gives.
    spec fn name_spec(&self) -> Seq<char>;

    /// Human-readable name.
    fn name(&self) -> (r: &str)
        ensures
            r@ == self.name_spec(),
    ;

    /// How a bar moves the strategy from this state to `after` with the
    /// signal `r`, given the candle, its features and the strategy's current
    /// position.
    spec fn bar_relation(
        &self,
        candle: Candle,
        features: FeatureRow,
        position: Option<Position>,
        after: Self,
        r: Option<Signal>,
    ) -> bool;

    /// Processes a completed candle and optionally emits a signal.
    fn on_bar(
        &mut self,
        candle: &Candle,
        features: &FeatureRow,
        current_position: Option<&Position>,
    ) -> (r: Option<Signal>)
        ensures
            old(self).bar_relation(*candle, *features, deref_position(current_position), *final(self), r),
    ;

    /// What `params` lists for this state.
    spec fn params_relation(&self, r: Seq<(String, ParamValue)>) -> bool;

    /// The strategy's parameters.
    fn params(&self) -> (r: Vec<(String, ParamValue)>)
        ensures
            self.params_relation(r@),
    ;

    /// What clearing the internal state makes of this state.
    spec fn reset_relation(&self, after: Self) -> bool;

    /// Clears internal state (before a backtest).
    fn reset(&mut self)
        ensures
            old(self).reset_relation(*final(self)),
    ;

    /// Minimum number of bars between trades.
    fn cooldown_bars(&self) -> u32;
}

// ---------------------------------------------------------------------------
// Parameters
// ---------------------------------------------------------------------------

/// The value of the first parameter named `key`.
pub open spec fn param_lookup(ps: Seq<(String, ParamValue)>, key: Seq<char>) -> Option<ParamValue>
    decreases ps.len(),
{
    if ps.len() == 0 {
        None
    } else if ps[0].0@ == key {
        Some(ps[0].1)
    } else {
        param_lookup(ps.drop_first(), key)
    }
}

/// A non-negative integer parameter, or `default`.
pub open spec fn param_u64(ps: Seq<(String, ParamValue)>, key: Seq<char>, default: u64) -> u64 {
    match param_lookup(ps, key) {
        Some(ParamValue::UInt(n)) => n,
        _ => default,
    }
}

/// A decimal written as text, or `default` (also when the text does not parse).
pub open spec fn param_dec(ps: Seq<(String, ParamValue)>, key: Seq<char>, default: Dec) -> Dec {
    match param_lookup(ps, key) {
        Some(ParamValue::Text(s)) => match decimal::decimal_parse(s@) {
            Some(d) => d,
            None => default,
        },
        _ => default,
    }
}

/// A boolean parameter, or `default`.
pub open spec fn param_bool(ps: Seq<(String, ParamValue)>, key: Seq<char>, default: bool) -> bool {
    match param_lookup(ps, key) {
        Some(ParamValue::Flag(b)) => b,
        _ => default,
    }
}

/// A text parameter, or `default`.
pub open spec fn param_text(ps: Seq<(String, ParamValue)>, key: Seq<char>, default: Seq<char>) -> Seq<
    char,
> {
    match param_lookup(ps, key) {
        Some(ParamValue::Text(s)) => s@,
        _ => default,
    }
}

/// Index of the first parameter named `key`.
fn find_param(ps: &Vec<(String, ParamValue)>, key: &str) -> (r: Option<usize>)
    ensures
        match param_lookup(ps@, key@) {
            Some(v) => r is Some && r->0 < ps@.len() && ps@[r->0 as int].1 == v,
            None => r is None,
        },
{
    let mut i: usize = 0;
    assert(ps@.subrange(0, ps@.len() as int) =~= ps@);
    while i < ps.len()
        invariant
            i <= ps@.len(),
            param_lookup(ps@, key@) == param_lookup(ps@.subrange(i as int, ps@.len() as int), key@),
        decreases ps@.len() - i,
    {
        let ghost rest = ps@.subrange(i as int, ps@.len() as int);
        assert(rest[0] == ps@[i as int]);
        if same_text(ps[i].0.as_str(), key) {
            return Some(i);
        }
        assert(rest.drop_first() =~= ps@.subrange(i + 1, ps@.len() as int));
        i = i + 1;
    }
    None
}

/// Reads a non-negative integer parameter.
pub fn get_u64(ps: &Vec<(String, ParamValue)>, key: &str, default: u64) -> (r: u64)
    ensures
        r == param_u64(ps@, key@, default),
{
    match find_param(ps, key) {
        Some(i) => match &ps[i].1 {
            ParamValue::UInt(n) => *n,
            _ => default,
        },
        None => default,
    }
}

/// Reads a decimal parameter written as text.
pub fn get_dec(ps: &Vec<(String, ParamValue)>, key: &str, default: Dec) -> (r: Dec)
    ensures
        r == param_dec(ps@, key@, default),
{
    match find_param(ps, key) {
        Some(i) => match &ps[i].1 {
            ParamValue::Text(s) => match Dec::parse(s.as_str()) {
                Some(d) => d,
                None => default,
            },
            _ => default,
        },
        None => default,
    }
}

/// Reads a boolean parameter.
pub fn get_bool(ps: &Vec<(String, ParamValue)>, key: &str, default: bool) -> (r: bool)
    ensures
        r == param_bool(ps@, key@, default),
{
    match find_param(ps, key) {
        Some(i) => match &ps[i].1 {
            ParamValue::Flag(b) => *b,
            _ => default,
        },
        None => default,
    }
}

/// Reads a text parameter.
pub fn get_text(ps: &Vec<(String, ParamValue)>, key: &str, default: &str) -> (r: String)
    ensures
        r@ == param_text(ps@, key@, default@),
{
    match find_param(ps, key) {
        Some(i) => match &ps[i].1 {
            ParamValue::Text(s) => s.clone(),
            _ => String::from_str(default),
        },
        None => String::from_str(default),
    }
}

// ---------------------------------------------------------------------------
// Shared parts of signals and positions
// ---------------------------------------------------------------------------

/// The position is open (present and not flat).
pub open spec fn has_open_position(p: Option<Position>) -> bool {
    match p {
        Some(pos) => !crate::types::position_is_flat(pos),
        None => false,
    }
}

/// The side of the position (`Flat` without one).
pub open spec fn side_of(p: Option<Position>) -> PositionSide {
    match p {
        Some(pos) => pos.side,
        None => PositionSide::Flat,
    }
}

/// Whether the strategy's current position is open, and its side.
pub fn position_state(p: Option<&Position>) -> (r: (bool, PositionSide))
    ensures
        r.0 == has_open_position(match p { Some(q) => Some(*q), None => None }),
        r.1 == side_of(match p { Some(q) => Some(*q), None => None }),
{
    match p {
        Some(q) => (!q.is_flat(), q.side),
        None => (false, PositionSide::Flat),
    }
}

/// The position behind an optional reference.
pub open spec fn deref_position(p: Option<&Position>) -> Option<Position> {
    match p {
        Some(q) => Some(*q),
        None => None,
    }
}

/// The trading fields of a signal emitted by `name` on `c`.
pub open spec fn signal_is(
    s: Signal,
    name: Seq<char>,
    c: Candle,
    direction: SignalDirection,
    strength: Dec,
    confidence: Dec,
    stop_loss: Option<Dec>,
    take_profit: Option<Dec>,
    time_stop_bars: Option<u32>,
) -> bool {
    &&& s.strategy_name@ == name
    &&& s.symbol@ == c.symbol@
    &&& s.market_type == c.market_type
    &&& s.timeframe == c.timeframe
    &&& s.direction == direction
    &&& s.strength == strength
    &&& s.confidence == confidence
    &&& s.entry_price == Some(c.close)
    &&& s.stop_loss == stop_loss
    &&& s.take_profit == take_profit
    &&& s.time_stop_bars == time_stop_bars
}

/// Builds a signal on the candle, stamped with the current time.
pub fn make_signal(
    name: &String,
    c: &Candle,
    direction: SignalDirection,
    strength: Dec,
    confidence: Dec,
    stop_loss: Option<Dec>,
    take_profit: Option<Dec>,
    time_stop_bars: Option<u32>,
    metadata: SignalMetadata,
) -> (r: Signal)
    ensures
        signal_is(
            r,
            name@,
            *c,
            direction,
            strength,
            confidence,
            stop_loss,
            take_profit,
            time_stop_bars,
        ),
        r.metadata == metadata,
{
    Signal {
        strategy_name: name.clone(),
        symbol: c.symbol.clone(),
        market_type: c.market_type,
        timeframe: c.timeframe,
        timestamp_ms: now_millis(),
        direction,
        strength,
        confidence,
        entry_price: Some(c.close),
        stop_loss,
        take_profit,
        time_stop_bars,
        metadata,
    }
}

/// A key/value pair of signal inputs.
pub fn input(key: &str, value: String) -> (r: (String, String))
    ensures
        r.0@ == key@,
        r.1@ == value@,
{
    (String::from_str(key), value)
}

/// Signal metadata with the given inputs, uncertainty and regime label.
pub fn metadata(
    inputs: Vec<(String, String)>,
    uncertainty_score: Option<Dec>,
    regime: Option<&str>,
) -> (r: SignalMetadata)
    ensures
        r.signal_inputs@ == inputs@,
        r.uncertainty_score == uncertainty_score,
        match regime {
            Some(g) => r.regime is Some && r.regime->0@ == g@,
            None => r.regime is None,
        },
        r.risk_overrides@.len() == 0,
{
    SignalMetadata {
        signal_inputs: inputs,
        uncertainty_score,
        regime: match regime {
            Some(g) => Some(String::from_str(g)),
            None => None,
        },
        risk_overrides: Vec::new(),
    }
}

/// A small decimal sum (magnitude within one mantissa unit range), exact.
pub fn add_exact(a: Dec, b: Dec) -> (r: Dec)
    requires
        -MAX_MANTISSA <= a@ + b@ <= MAX_MANTISSA,
    ensures
        r@ == a@ + b@,
{
    proof {
        decimal::lemma_fits_small(a@ + b@, decimal::max_nat(a.scl(), b.scl()));
    }
    a.add(b).unwrap()
}

/// A small decimal difference, exact.
pub fn sub_exact(a: Dec, b: Dec) -> (r: Dec)
    requires
        -MAX_MANTISSA <= a@ - b@ <= MAX_MANTISSA,
    ensures
        r@ == a@ - b@,
{
    proof {
        decimal::lemma_fits_small(a@ - b@, decimal::max_nat(a.scl(), b.scl()));
    }
    a.sub(b).unwrap()
}

/// The value of `m * 10^-s` in units of `10^-28`.
pub open spec fn lit(m: int, s: nat) -> int {
    m * decimal::pow10((28 - s) as nat)
}

/// One more bar, saturating at the largest count.
pub open spec fn next_bar(b: u32) -> u32 {
    if b < u32::MAX {
        (b + 1) as u32
    } else {
        b
    }
}

/// Counts one more bar.
pub fn count_bar(b: u32) -> (r: u32)
    ensures
        r == next_bar(b),
{
    if b < u32::MAX {
        b + 1
    } else {
        b
    }
}

/// `close - atr * m`.
pub open spec fn below_by(close: Dec, atr: Dec, m: Dec) -> Option<Dec> {
    decimal::sub_spec(Some(close), decimal::mul_spec(Some(atr), Some(m)))
}

/// `atr * m` is computed exactly, and so is moving `close` by it in either
/// direction (no rounding in the decimal operations).
pub open spec fn exact_offset(close: Dec, atr: Dec, m: Dec) -> bool {
    match decimal::mul_spec(Some(atr), Some(m)) {
        Some(p) => {
            &&& p@ * decimal::unit() == atr@ * m@
            &&& (decimal::add_spec(Some(close), Some(p)) matches Some(up) ==> up@ == close@ + p@)
            &&& (decimal::sub_spec(Some(close), Some(p)) matches Some(down) ==> down@ == close@
                - p@)
        },
        None => true,
    }
}

/// Moving the close by a positive multiple of a positive ATR puts a level
/// strictly below (`below_by`) or above (`above_by`) it.
pub proof fn lemma_offset_sides(close: Dec, atr: Dec, m: Dec)
    requires
        atr@ > 0,
        m@ > 0,
        exact_offset(close, atr, m),
    ensures
        below_by(close, atr, m) matches Some(d) ==> d@ < close@,
        above_by(close, atr, m) matches Some(u) ==> u@ > close@,
{
    if let Some(p) = decimal::mul_spec(Some(atr), Some(m)) {
        let a = atr@;
        let b = m@;
        let q = p@;
        let u = decimal::unit();
        assert(u > 0);
        assert(q > 0) by (nonlinear_arith)
            requires
                q * u == a * b,
                a > 0,
                b > 0,
                u > 0,
        ;
    }
}

/// A signal's stop and target sit on either side of its entry: below and
/// above it for a long, above and below it for a short.
pub open spec fn levels_bracket_entry(s: Signal) -> bool {
    match (s.entry_price, s.stop_loss, s.take_profit) {
        (Some(e), Some(sl), Some(tp)) => if s.direction == SignalDirection::Long {
            sl@ < e@ && e@ < tp@
        } else if s.direction == SignalDirection::Short {
            sl@ > e@ && e@ > tp@
        } else {
            true
        },
        _ => true,
    }
}

/// A signal's stop sits on its loss side: below the entry for a long,
/// above it for a short.
pub open spec fn stop_on_loss_side(s: Signal) -> bool {
    match (s.entry_price, s.stop_loss) {
        (Some(e), Some(sl)) => if s.direction == SignalDirection::Long {
            sl@ < e@
        } else if s.direction == SignalDirection::Short {
            sl@ > e@
        } else {
            true
        },
        _ => true,
    }
}

/// `close + atr * m`.
pub open spec fn above_by(close: Dec, atr: Dec, m: Dec) -> Option<Dec> {
    decimal::add_spec(Some(close), decimal::mul_spec(Some(atr), Some(m)))
}

/// The literal decimal `m * 10^-s`.
pub fn lit_dec(m: i64, s: u32) -> (r: Dec)
    requires
        s <= 28,
    ensures
        r == decimal::dec_lit(m as int, s as nat),
        r@ == lit(m as int, s as nat),
{
    proof {
        decimal::lemma_lit(m as int, s as nat);
    }
    Dec::new(m, s)
}

// ---------------------------------------------------------------------------
// Registry
// ---------------------------------------------------------------------------

/// The available strategies, by name.
pub struct StrategyRegistry<S: Strategy> {
    entries: Vec<(String, S)>,
}

impl<S: Strategy> StrategyRegistry<S> {
    /// The strategy registered under `name`.
    pub closed spec fn lookup(&self, name: Seq<char>) -> Option<S> {
        first_match(self.entries@, name)
    }

    /// The registered names, in the order first registered.
    pub closed spec fn registered_names(&self) -> Seq<Seq<char>> {
        entry_names(self.entries@)
    }

    /// An empty registry.
    pub fn new() -> (r: Self)
        ensures
            forall|k: Seq<char>| #[trigger] r.lookup(k) is None,
            r.registered_names().len() == 0,
    {
        StrategyRegistry { entries: Vec::new() }
    }

    /// Registers `strategy` under its name, replacing any strategy of that
    /// name.
    pub fn register(&mut self, strategy: S)
        ensures
            forall|k: Seq<char>| #[trigger] final(self).lookup(k) == if k == strategy.name_spec() {
                Some(strategy)
            } else {
                old(self).lookup(k)
            },
    {
        let name = String::from_str(strategy.name());
        let found = find_key(&self.entries, name.as_str());
        let ghost before = self.entries@;
        match found {
            Some(i) => {
                self.entries.set(i, (name, strategy));
                proof {
                    lemma_first_match_update(before, name@, i as int, (name, strategy));
                }
            },
            None => {
                self.entries.push((name, strategy));
                proof {
                    lemma_first_match_push(before, (name, strategy));
                }
            },
        }
    }

    /// The strategy registered under `name`.
    pub fn get(&self, name: &str) -> (r: Option<&S>)
        ensures
            r is Some == self.lookup(name@) is Some,
            r is Some ==> *r->0 == self.lookup(name@)->0,
    {
        match find_key(&self.entries, name) {
            Some(i) => Some(&self.entries[i].1),
            None => None,
        }
    }

    /// The strategy registered under `name`, to be changed in place.
    pub fn get_mut(&mut self, name: &str) -> (r: Option<&mut S>)
        ensures
            r is Some == old(self).lookup(name@) is Some,
            r is Some ==> *r->0 == old(self).lookup(name@)->0,
            r matches Some(m) ==> forall|k: Seq<char>| #[trigger] final(self).lookup(k) == if k == name@ {
                Some(*final(m))
            } else {
                old(self).lookup(k)
            },
            r is None ==> *final(self) == *old(self),
    {
        match find_key(&self.entries, name) {
            Some(i) => {
                proof {
                    lemma_first_match_replace_item(self.entries@, name@, i as int);
                }
                Some(&mut self.entries[i].1)
            },
            None => None,
        }
    }

    /// The registered names, in the order first registered.
    pub fn names(&self) -> (r: Vec<&str>)
        ensures
            r@.len() == self.registered_names().len(),
            forall|i: int| 0 <= i < r@.len() ==> (#[trigger] r@[i])@ == self.registered_names()[i],
    {
        let mut out: Vec<&str> = Vec::new();
        let mut i: usize = 0;
        while i < self.entries.len()
            invariant
                i <= self.entries@.len(),
                out@.len() == i,
                forall|j: int| 0 <= j < i ==> (#[trigger] out@[j])@ == self.entries@[j].0@,
            decreases self.entries@.len() - i,
        {
            out.push(self.entries[i].0.as_str());
            i = i + 1;
        }
        out
    }
}

} // verus!
