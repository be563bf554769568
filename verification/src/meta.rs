//! Market regime detection from features, and the regime-weighted choice
//! among sub-strategy signals.
use vstd::prelude::*;
use crate::decimal::{self, Dec};
use crate::features::FeatureRow;
use crate::types::{Candle, Position, Signal, SignalMetadata};
use crate::text::same_text;
use crate::config::ParamValue;
use crate::strategy::{Strategy, deref_position};

verus! {

/// Regime categories.
#[derive(Clone, Copy, Debug, PartialEq, Eq, Structural)]
pub enum MarketRegime {
    Trending,
    Ranging,
    HighVolatility,
    LowVolatility,
}

/// High volatility (realized volatility above 60) first, then a strong
/// trend (|trend strength| above 1), then a narrow band (width below 0.02),
/// else ranging.
pub open spec fn detect_spec(f: FeatureRow) -> MarketRegime {
    let trend_strong = match f.trend_strength {
        Some(ts) => decimal::dec_abs(ts) > decimal::dec_lit(1, 0)@,
        None => false,
    };
    let high_vol = match f.realized_vol_20 {
        Some(v) => v@ > decimal::dec_lit(60, 0)@,
        None => false,
    };
    let bb_narrow = match f.bb_width {
        Some(w) => w@ < decimal::dec_lit(2, 2)@,
        None => false,
    };
    if high_vol {
        MarketRegime::HighVolatility
    } else if trend_strong {
        MarketRegime::Trending
    } else if bb_narrow {
        MarketRegime::LowVolatility
    } else {
        MarketRegime::Ranging
    }
}

pub open spec fn regime_key_spec(r: MarketRegime) -> Seq<char> {
    match r {
        MarketRegime::Trending => "trending"@,
        MarketRegime::Ranging => "ranging"@,
        MarketRegime::HighVolatility => "high_volatility"@,
        MarketRegime::LowVolatility => "low_volatility"@,
    }
}

pub open spec fn regime_debug(r: MarketRegime) -> Seq<char> {
    match r {
        MarketRegime::Trending => "Trending"@,
        MarketRegime::Ranging => "Ranging"@,
        MarketRegime::HighVolatility => "HighVolatility"@,
        MarketRegime::LowVolatility => "LowVolatility"@,
    }
}

impl MarketRegime {
    /// The regime the features indicate.
    pub fn detect(features: &FeatureRow) -> (r: MarketRegime)
        ensures
            r == detect_spec(*features),
    {
        let trend_strong = match features.trend_strength {
            Some(ts) => ts.abs().gt(&Dec::new(1, 0)),
            None => false,
        };
        let high_vol = match features.realized_vol_20 {
            Some(v) => v.gt(&Dec::new(60, 0)),
            None => false,
        };
        let bb_narrow = match features.bb_width {
            Some(w) => w.lt(&Dec::new(2, 2)),
            None => false,
        };
        if high_vol {
            MarketRegime::HighVolatility
        } else if trend_strong {
            MarketRegime::Trending
        } else if bb_narrow {
            MarketRegime::LowVolatility
        } else {
            MarketRegime::Ranging
        }
    }

    /// The key weights are stored under.
    pub fn key(&self) -> (r: &'static str)
        ensures
            r@ == regime_key_spec(*self),
    {
        match self {
            MarketRegime::Trending => "trending",
            MarketRegime::Ranging => "ranging",
            MarketRegime::HighVolatility => "high_volatility",
            MarketRegime::LowVolatility => "low_volatility",
        }
    }

    /// The variant's name (as `{:?}` writes it).
    pub fn debug_name(&self) -> (r: &'static str)
        ensures
            r@ == regime_debug(*self),
    {
        match self {
            MarketRegime::Trending => "Trending",
            MarketRegime::Ranging => "Ranging",
            MarketRegime::HighVolatility => "HighVolatility",
            MarketRegime::LowVolatility => "LowVolatility",
        }
    }
}

/// Allocation weights of the sub-strategies, one list per regime.
pub struct RegimeWeights {
    pub count: usize,
    pub trending: Vec<Dec>,
    pub ranging: Vec<Dec>,
    pub high_volatility: Vec<Dec>,
    pub low_volatility: Vec<Dec>,
}

/// The weights kept for a regime.
pub open spec fn weights_of(w: RegimeWeights, r: MarketRegime) -> Seq<Dec> {
    match r {
        MarketRegime::Trending => w.trending@,
        MarketRegime::Ranging => w.ranging@,
        MarketRegime::HighVolatility => w.high_volatility@,
        MarketRegime::LowVolatility => w.low_volatility@,
    }
}

/// `1 / n` for `n > 0`, else zero.
pub open spec fn equal_weight(n: usize) -> Option<Dec> {
    if n > 0 {
        decimal::div_spec(Some(decimal::dec_lit(1, 0)), Some(crate::indicators::dec_of_u32(n as int)))
    } else {
        Some(decimal::dec_lit(0, 0))
    }
}

fn filled(w: Dec, n: usize) -> (r: Vec<Dec>)
    ensures
        r@.len() == n,
        forall|i: int| 0 <= i < n ==> r@[i] == w,
{
    let mut v: Vec<Dec> = Vec::new();
    let mut i: usize = 0;
    while i < n
        invariant
            i <= n,
            v@.len() == i,
            forall|j: int| 0 <= j < i ==> v@[j] == w,
        decreases n - i,
    {
        v.push(w);
        i = i + 1;
    }
    v
}

impl RegimeWeights {
    /// Equal weights `1/n` for every regime (`None` when `1/n` overflows).
    pub fn new(n: usize) -> (r: Option<RegimeWeights>)
        ensures
            match equal_weight(n) {
                Some(w) => r matches Some(rw) && rw.count == n && forall|g: MarketRegime|
                    #![trigger weights_of(rw, g)]
                    weights_of(rw, g).len() == n && forall|i: int|
                        0 <= i < n ==> weights_of(rw, g)[i] == w,
                None => r is None,
            },
            (n == 0 || n as u32 != 0) ==> r is Some,
    {
        let w = if n > 0 {
            let one = Dec::new(1, 0);
            let count = Dec::from_u32(#[verifier::truncate] (n as u32));
            proof {
                decimal::lemma_pow10_28();
                decimal::lemma_lit(1, 0);
            }
            match one.div(count) {
                Some(w) => w,
                None => return None,
            }
        } else {
            Dec::new(0, 0)
        };
        Some(
            RegimeWeights {
                count: n,
                trending: filled(w, n),
                ranging: filled(w, n),
                high_volatility: filled(w, n),
                low_volatility: filled(w, n),
            },
        )
    }

    /// Replaces the weights of the regime named `regime` when there is one
    /// weight per sub-strategy; otherwise (or for an unknown name) nothing
    /// changes.
    pub fn set_regime_weights(&mut self, regime: &str, weights: Vec<Dec>)
        ensures
            final(self).count == old(self).count,
            forall|g: MarketRegime| #![trigger weights_of(*final(self), g)]
                weights_of(*final(self), g) == if weights@.len() == old(self).count
                    && regime_key_spec(g) == regime@ {
                    weights@
                } else {
                    weights_of(*old(self), g)
                },
    {
        if weights.len() != self.count {
            return;
        }
        self.put(regime, weights);
    }

    /// Replaces the weights of the regime named `regime` (nothing changes
    /// for an unknown name).
    fn put(&mut self, regime: &str, weights: Vec<Dec>)
        ensures
            final(self).count == old(self).count,
            forall|g: MarketRegime| #![trigger weights_of(*final(self), g)]
                weights_of(*final(self), g) == if regime_key_spec(g) == regime@ {
                    weights@
                } else {
                    weights_of(*old(self), g)
                },
    {
        proof {
            reveal_strlit("trending");
            reveal_strlit("ranging");
            reveal_strlit("high_volatility");
            reveal_strlit("low_volatility");
            assert("trending"@.len() == 8 && "ranging"@.len() == 7 && "high_volatility"@.len() == 15
                && "low_volatility"@.len() == 14);
        }
        if same_text(regime, "trending") {
            self.trending = weights;
        } else if same_text(regime, "ranging") {
            self.ranging = weights;
        } else if same_text(regime, "high_volatility") {
            self.high_volatility = weights;
        } else if same_text(regime, "low_volatility") {
            self.low_volatility = weights;
        }
    }

    /// The weights of a regime.
    pub fn weights_for(&self, regime: MarketRegime) -> (r: &Vec<Dec>)
        ensures
            r@ == weights_of(*self, regime),
    {
        match regime {
            MarketRegime::Trending => &self.trending,
            MarketRegime::Ranging => &self.ranging,
            MarketRegime::HighVolatility => &self.high_volatility,
            MarketRegime::LowVolatility => &self.low_volatility,
        }
    }
}

/// The best candidate after considering `signal` at `weight`: it replaces
/// the current best when there is none or its weighted confidence is
/// strictly higher.
pub open spec fn consider_spec(best: Option<(Signal, Dec)>, signal: Signal, weight: Dec) -> Option<
    Option<(Signal, Dec)>,
> {
    match decimal::mul_spec(Some(signal.confidence), Some(weight)) {
        None => None,
        Some(score) => match best {
            Some((b, best_score)) => if score@ <= best_score@ {
                Some(Some((b, best_score)))
            } else {
                Some(Some((signal, score)))
            },
            None => Some(Some((signal, score))),
        },
    }
}

/// Weighs a sub-strategy's signal against the best so far (`None` on
/// overflow of the weighted confidence).
pub fn consider(best: Option<(Signal, Dec)>, signal: Signal, weight: Dec) -> (r: Option<
    Option<(Signal, Dec)>,
>)
    ensures
        r == consider_spec(best, signal, weight),
{
    let score = match signal.confidence.mul(weight) {
        Some(s) => s,
        None => return None,
    };
    match best {
        Some((b, best_score)) => {
            if score.le(&best_score) {
                Some(Some((b, best_score)))
            } else {
                Some(Some((signal, score)))
            }
        },
        None => Some(Some((signal, score))),
    }
}

/// The chosen signal, labelled with the regime's name.
pub fn label_with_regime(signal: Signal, regime: MarketRegime) -> (r: Signal)
    ensures
        r.metadata.regime is Some,
        r.metadata.regime->0@ == regime_debug(regime),
        r.direction == signal.direction,
        r.confidence == signal.confidence,
        r.stop_loss == signal.stop_loss,
        r.take_profit == signal.take_profit,
        r == (Signal { metadata: SignalMetadata { regime: r.metadata.regime, ..signal.metadata }, ..signal }),
{
    let mut s = signal;
    s.metadata.regime = Some(String::from_str(regime.debug_name()));
    s
}

/// The weight at position `i` (zero past the end).
pub open spec fn weight_at(w: Seq<Dec>, i: int) -> Dec {
    if 0 <= i < w.len() {
        w[i]
    } else {
        decimal::dec_zero()
    }
}

/// The best weighted candidate after the signals `rs` of the sub-strategies
/// (in order) at weights `w`; a signal counts only at a positive weight.
/// `None` once a weighted confidence overflows.
pub open spec fn best_of(rs: Seq<Option<Signal>>, w: Seq<Dec>) -> Option<Option<(Signal, Dec)>>
    decreases rs.len(),
{
    if rs.len() == 0 {
        Some(None)
    } else {
        match best_of(rs.drop_last(), w) {
            None => None,
            Some(b) => {
                let k = rs.len() - 1;
                match rs.last() {
                    Some(sig) => if weight_at(w, k)@ > 0 {
                        consider_spec(b, sig, weight_at(w, k))
                    } else {
                        Some(b)
                    },
                    None => Some(b),
                }
            },
        }
    }
}

/// `x` is `sig` with the regime's name as its regime label.
pub open spec fn labelled(x: Signal, sig: Signal, regime: MarketRegime) -> bool {
    &&& x.metadata.regime is Some
    &&& x.metadata.regime->0@ == regime_debug(regime)
    &&& x == (Signal { metadata: SignalMetadata { regime: x.metadata.regime, ..sig.metadata }, ..sig })
}

/// One bar of a meta strategy from `s0` to `s1` with result `r`: the first
/// `m` sub-strategies are visited in order; one of positive weight for the
/// detected regime takes the bar (its signal recorded in `rs`), the others
/// stay as they were (no signal); the sub-strategies after `m` are
/// untouched.  The visit ends early (`m < n`) only just after a weighted
/// confidence overflows, and then nothing is signalled; otherwise the
/// result is the best weighted signal, labelled with the regime.
pub open spec fn meta_step<S: Strategy>(
    s0: MetaStrategy<S>,
    s1: MetaStrategy<S>,
    candle: Candle,
    features: FeatureRow,
    position: Option<Position>,
    m: int,
    rs: Seq<Option<Signal>>,
    r: Option<Signal>,
) -> bool {
    let regime = detect_spec(features);
    let w = weights_of(s0.regime_weights, regime);
    let n = s0.strategies@.len();
    &&& s1.name == s0.name
    &&& s1.regime_weights == s0.regime_weights
    &&& s1.strategies@.len() == n
    &&& 0 <= m <= n
    &&& rs.len() == m
    &&& forall|i: int|
        #![trigger rs[i]]
        0 <= i < m ==> if weight_at(w, i)@ > 0 {
            s0.strategies@[i].bar_relation(candle, features, position, s1.strategies@[i], rs[i])
        } else {
            s1.strategies@[i] == s0.strategies@[i] && rs[i] is None
        }
    &&& forall|i: int| m <= i < n ==> #[trigger] s1.strategies@[i] == s0.strategies@[i]
    &&& m > 0 ==> best_of(rs.drop_last(), w) is Some
    &&& m < n ==> best_of(rs, w) is None && r is None
    &&& m == n ==> match best_of(rs, w) {
        Some(Some((sig, _))) => r matches Some(x) && labelled(x, sig, regime),
        _ => r is None,
    }
}

/// Regime-based allocation over sub-strategies: on each bar every
/// sub-strategy with a positive weight for the detected regime is consulted,
/// and the signal with the highest weighted confidence wins (the first one
/// on a tie), labelled with the regime.
pub struct MetaStrategy<S: Strategy> {
    pub name: String,
    pub strategies: Vec<S>,
    pub regime_weights: RegimeWeights,
}

impl<S: Strategy> MetaStrategy<S> {
    /// Equal weights `1/n` over the `n` sub-strategies for every regime.
    pub fn new(name: String, strategies: Vec<S>) -> (r: Self)
        requires
            strategies@.len() == 0 || strategies@.len() as u32 != 0,
        ensures
            r.name == name,
            r.strategies@ == strategies@,
            r.regime_weights.count == strategies@.len(),
            equal_weight(strategies.len()) is Some,
            forall|g: MarketRegime| #![trigger weights_of(r.regime_weights, g)]
                weights_of(r.regime_weights, g).len() == strategies@.len() && forall|i: int|
                    0 <= i < strategies@.len() ==> weights_of(r.regime_weights, g)[i] == equal_weight(
                        strategies.len(),
                    )->0,
    {
        let n = strategies.len();
        let weights = RegimeWeights::new(n);
        MetaStrategy { name, strategies, regime_weights: weights.unwrap() }
    }

    /// Sets the weights of the regime named `regime` when there is one per
    /// sub-strategy; otherwise (or for an unknown name) nothing changes.
    pub fn set_regime_weights(&mut self, regime: &str, weights: Vec<Dec>)
        ensures
            final(self).name == old(self).name,
            final(self).strategies == old(self).strategies,
            final(self).regime_weights.count == old(self).regime_weights.count,
            forall|g: MarketRegime| #![trigger weights_of(final(self).regime_weights, g)]
                weights_of(final(self).regime_weights, g) == if weights@.len()
                    == old(self).strategies@.len() && regime_key_spec(g) == regime@ {
                    weights@
                } else {
                    weights_of(old(self).regime_weights, g)
                },
    {
        if weights.len() == self.strategies.len() {
            self.regime_weights.put(regime, weights);
        }
    }
}

impl<S: Strategy> Strategy for MetaStrategy<S> {
    open spec fn name_spec(&self) -> Seq<char> {
        self.name@
    }

    open spec fn bar_relation(
        &self,
        candle: Candle,
        features: FeatureRow,
        position: Option<Position>,
        after: Self,
        r: Option<Signal>,
    ) -> bool {
        exists|m: int, rs: Seq<Option<Signal>>| #[trigger] meta_step(*self, after, candle, features, position, m, rs, r)
    }

    open spec fn reset_relation(&self, after: Self) -> bool {
        &&& after.name == self.name
        &&& after.regime_weights == self.regime_weights
        &&& after.strategies@.len() == self.strategies@.len()
        &&& forall|i: int|
            0 <= i < self.strategies@.len() ==> self.strategies@[i].reset_relation(#[trigger] after.strategies@[i])
    }

    fn name(&self) -> (r: &str)
        ensures
            r@ == self.name@,
    {
        self.name.as_str()
    }

    fn on_bar(
        &mut self,
        candle: &Candle,
        features: &FeatureRow,
        current_position: Option<&Position>,
    ) -> (r: Option<Signal>)
        ensures
            ({
                let regime = detect_spec(*features);
                let w = weights_of(old(self).regime_weights, regime);
                &&& final(self).name == old(self).name
                &&& final(self).regime_weights == old(self).regime_weights
                &&& final(self).strategies@.len() == old(self).strategies@.len()
                &&& forall|i: int|
                    0 <= i < old(self).strategies@.len() && !(weight_at(w, i)@ > 0) ==> (
                    #[trigger] final(self).strategies@[i]) == old(self).strategies@[i]
                &&& (forall|i: int| 0 <= i < old(self).strategies@.len() ==> !(#[trigger] weight_at(w, i)@ > 0))
                    ==> r is None
                &&& r is Some ==> r->0.metadata.regime is Some && r->0.metadata.regime->0@
                    == regime_debug(regime)
            }),
    {
        let regime = MarketRegime::detect(features);
        let weights = self.regime_weights.weights_for(regime).clone();
        assert(weights@ =~= weights_of(self.regime_weights, regime));
        let ghost w = weights@;
        let ghost start = self.strategies@;
        let n = self.strategies.len();
        let mut best: Option<(Signal, Dec)> = None;
        let mut i: usize = 0;
        let ghost mut rs: Seq<Option<Signal>> = Seq::empty();
        while i < n
            invariant
                rs.len() == i,
                best_of(rs, w) == Some(best),
                i > 0 ==> best_of(rs.drop_last(), w) is Some,
                forall|j: int|
                    #![trigger rs[j]]
                    0 <= j < i ==> if weight_at(w, j)@ > 0 {
                        start[j].bar_relation(
                            *candle,
                            *features,
                            deref_position(current_position),
                            self.strategies@[j],
                            rs[j],
                        )
                    } else {
                        self.strategies@[j] == start[j] && rs[j] is None
                    },
                n == self.strategies@.len(),
                n == start.len(),
                i <= n,
                w == weights@,
                w == weights_of(old(self).regime_weights, regime),
                regime == detect_spec(*features),
                self.name == old(self).name,
                self.regime_weights == old(self).regime_weights,
                start == old(self).strategies@,
                forall|j: int| i <= j < n ==> (#[trigger] self.strategies@[j]) == start[j],
                forall|j: int|
                    0 <= j < i && !(weight_at(w, j)@ > 0) ==> (#[trigger] self.strategies@[j]) == start[j],
                (forall|j: int| 0 <= j < i ==> !(#[trigger] weight_at(w, j)@ > 0)) ==> best is None,
            decreases n - i,
        {
            let weight = if i < weights.len() {
                weights[i]
            } else {
                Dec::zero()
            };
            assert(weight == weight_at(w, i as int));
            let ghost rs0 = rs;
            if weight.gt(&Dec::zero()) {
                let ghost before = self.strategies@;
                let signal = self.strategies[i].on_bar(candle, features, current_position);
                let ghost sg = signal;
                assert forall|j: int| 0 <= j < n && j != i implies #[trigger] self.strategies@[j]
                    == before[j] by {}
                proof {
                    rs = rs0.push(sg);
                    assert(rs.drop_last() =~= rs0);
                }
                match signal {
                    Some(sig) => {
                        best = match consider(best, sig, weight) {
                            Some(b) => b,
                            None => {
                                proof {
                                    assert(meta_step(
                                        *old(self),
                                        *self,
                                        *candle,
                                        *features,
                                        deref_position(current_position),
                                        i + 1,
                                        rs,
                                        None,
                                    ));
                                }
                                return None;
                            },
                        };
                        assert(best is Some);
                    },
                    None => {},
                }
            } else {
                proof {
                    rs = rs0.push(None);
                    assert(rs.drop_last() =~= rs0);
                }
            }
            i = i + 1;
        }
        let r = match best {
            Some((sig, _)) => Some(label_with_regime(sig, regime)),
            None => None,
        };
        proof {
            assert(meta_step(
                *old(self),
                *self,
                *candle,
                *features,
                deref_position(current_position),
                n as int,
                rs,
                r,
            ));
        }
        r
    }

    /// What `params` lists for this state.
    open spec fn params_relation(&self, r: Seq<(String, ParamValue)>) -> bool {
        &&& (r.len() == 1)
        &&& (r[0].0@ == "sub_strategies"@)
        &&& (r[0].1 matches ParamValue::TextList(names) && names@.len() == self.strategies@.len()
            && forall|i: int|
            0 <= i < names@.len() ==> (#[trigger] names@[i])@ == self.strategies@[i].name_spec())
    }

    fn params(&self) -> (r: Vec<(String, ParamValue)>)
        ensures
            r@.len() == 1,
            r@[0].0@ == "sub_strategies"@,
            r@[0].1 matches ParamValue::TextList(names) && names@.len() == self.strategies@.len()
                && forall|i: int| 0 <= i < names@.len() ==> (#[trigger] names@[i])@
                    == self.strategies@[i].name_spec(),
    {
        let mut names: Vec<String> = Vec::new();
        let mut i: usize = 0;
        while i < self.strategies.len()
            invariant
                i <= self.strategies@.len(),
                names@.len() == i,
                forall|j: int| 0 <= j < i ==> (#[trigger] names@[j])@ == self.strategies@[j].name_spec(),
            decreases self.strategies@.len() - i,
        {
            names.push(String::from_str(self.strategies[i].name()));
            i = i + 1;
        }
        let mut m: Vec<(String, ParamValue)> = Vec::new();
        m.push((String::from_str("sub_strategies"), ParamValue::TextList(names)));
        m
    }

    fn reset(&mut self) {
        let n = self.strategies.len();
        let ghost start = self.strategies@;
        let mut i: usize = 0;
        while i < n
            invariant
                n == self.strategies@.len(),
                n == start.len(),
                start == old(self).strategies@,
                i <= n,
                self.name == old(self).name,
                self.regime_weights == old(self).regime_weights,
                forall|j: int| 0 <= j < i ==> start[j].reset_relation(#[trigger] self.strategies@[j]),
                forall|j: int| i <= j < n ==> #[trigger] self.strategies@[j] == start[j],
            decreases n - i,
        {
            let ghost before = self.strategies@;
            self.strategies[i].reset();
            assert forall|j: int| 0 <= j < n && j != i implies #[trigger] self.strategies@[j]
                == before[j] by {}
            i = i + 1;
        }
    }

    fn cooldown_bars(&self) -> (r: u32)
        ensures
            r == 1,
    {
        1
    }
}

} // verus!
