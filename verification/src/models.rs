//! Predictive models: direction probabilities, a rule-based baseline
//! classifier, a model registry and an ensemble scorer.
use vstd::prelude::*;
use crate::decimal::{self, Dec, add_opt, div_opt};
use crate::indicators::dec_of_u32;
use crate::features::FeatureRow;
use crate::indicators;
use crate::text::same_text;
use crate::keyed::{
    first_match, find_key, lemma_first_match_update, lemma_first_match_push,
};

verus! {

/// Probabilities of the next move being up, down or flat.
#[derive(Clone, Copy, Debug)]
pub struct DirectionProbs {
    pub up: Dec,
    pub down: Dec,
    pub flat: Dec,
}

/// `"up"` when up beats both others strictly, `"down"` when down does,
/// else `"flat"`.
pub open spec fn direction_name(up: Dec, down: Dec, flat: Dec) -> Seq<char> {
    if up@ > down@ && up@ > flat@ {
        "up"@
    } else if down@ > up@ && down@ > flat@ {
        "down"@
    } else {
        "flat"@
    }
}

impl DirectionProbs {
    /// The most likely direction (`"up"`, `"down"` or `"flat"`).
    pub fn predicted_direction(&self) -> (r: &'static str)
        ensures
            r@ == direction_name(self.up, self.down, self.flat),
    {
        if self.up.gt(&self.down) && self.up.gt(&self.flat) {
            "up"
        } else if self.down.gt(&self.up) && self.down.gt(&self.flat) {
            "down"
        } else {
            "flat"
        }
    }

    /// `up.max(down).max(flat)`.
    pub fn max_prob(&self) -> (r: Dec)
        ensures
            r == decimal::dec_max(decimal::dec_max(self.up, self.down), self.flat),
    {
        self.up.max(self.down).max(self.flat)
    }
}

/// A model's output for one feature row.
#[derive(Clone, Debug)]
pub struct ModelPrediction {
    pub model_id: String,
    pub model_version: String,
    pub timestamp_ms: i64,
    pub direction_probs: DirectionProbs,
    pub expected_return: Option<Dec>,
    pub volatility_forecast: Option<Dec>,
    pub confidence: Dec,
    pub feature_importance: Option<Vec<(String, Dec)>>,
}

/// A predictive model.
pub trait PredictionModel {
    /// The id that `model_id` gives.
    spec fn id_spec(&self) -> Seq<char>;

    fn model_id(&self) -> (r: &str)
        ensures
            r@ == self.id_spec(),
    ;

    /// The version that `version` gives.
    spec fn version_spec(&self) -> Seq<char>;

    fn version(&self) -> (r: &str)
        ensures
            r@ == self.version_spec(),
    ;

    /// What `predict` gives for a feature row.
    spec fn prediction_relation(&self, features: FeatureRow, r: Option<ModelPrediction>) -> bool;

    fn predict(&self, features: &FeatureRow) -> (r: Option<ModelPrediction>)
        ensures
            self.prediction_relation(*features, r),
    ;
}

/// Generates a random UUID v4 (`uuid::Uuid::new_v4`) in its simple
/// (hyphen-free) form, which `uuid` writes as 32 lower-case hexadecimal
/// digits.  Which digits come out is left open: they are random.
#[verifier::external_body]
pub(crate) fn random_uuid_simple() -> (r: String)
    ensures
        r@.len() == 32,
        forall|i: int|
            0 <= i < 32 ==> ('0' <= #[trigger] r@[i] <= '9' || 'a' <= r@[i] <= 'f'),
{
    uuid::Uuid::new_v4().simple().to_string()
}

/// Rule-based baseline classifier on RSI and trend strength.
pub struct ThresholdClassifier {
    id: String,
    version: String,
    rsi_long_threshold: Dec,
    rsi_short_threshold: Dec,
    trend_threshold: Dec,
}

/// The probabilities the baseline assigns:
/// oversold in an uptrend favors up, overbought in a downtrend favors down,
/// RSI below 40 leans up, above 60 leans down, otherwise flat.
pub open spec fn baseline_probs(rsi: Dec, trend: Dec) -> DirectionProbs {
    if rsi@ < decimal::dec_lit(35, 0)@ && trend@ > decimal::dec_lit(5, 1)@ {
        DirectionProbs {
            up: decimal::dec_lit(55, 2),
            down: decimal::dec_lit(20, 2),
            flat: decimal::dec_lit(25, 2),
        }
    } else if rsi@ > decimal::dec_lit(65, 0)@ && trend@ < decimal::dec_lit(-5, 1)@ {
        DirectionProbs {
            up: decimal::dec_lit(20, 2),
            down: decimal::dec_lit(55, 2),
            flat: decimal::dec_lit(25, 2),
        }
    } else if rsi@ < decimal::dec_lit(40, 0)@ {
        DirectionProbs {
            up: decimal::dec_lit(40, 2),
            down: decimal::dec_lit(25, 2),
            flat: decimal::dec_lit(35, 2),
        }
    } else if rsi@ > decimal::dec_lit(60, 0)@ {
        DirectionProbs {
            up: decimal::dec_lit(25, 2),
            down: decimal::dec_lit(40, 2),
            flat: decimal::dec_lit(35, 2),
        }
    } else {
        DirectionProbs {
            up: decimal::dec_lit(30, 2),
            down: decimal::dec_lit(30, 2),
            flat: decimal::dec_lit(40, 2),
        }
    }
}

impl ThresholdClassifier {
    /// A classifier with id `threshold_<uuid>`, version 1.0.0 and thresholds
    /// RSI 35 / 65 and trend 0.5.
    pub fn new() -> (r: ThresholdClassifier)
        ensures
            r.thresholds_standard(),
            r.version_spec() == "1.0.0"@,
    {
        let mut id = String::from_str("threshold_");
        id.append(random_uuid_simple().as_str());
        ThresholdClassifier {
            id,
            version: String::from_str("1.0.0"),
            rsi_long_threshold: Dec::new(35, 0),
            rsi_short_threshold: Dec::new(65, 0),
            trend_threshold: Dec::new(5, 1),
        }
    }

    pub closed spec fn thresholds_standard(&self) -> bool {
        &&& self.rsi_long_threshold == decimal::dec_lit(35, 0)
        &&& self.rsi_short_threshold == decimal::dec_lit(65, 0)
        &&& self.trend_threshold == decimal::dec_lit(5, 1)
        &&& self.version@ == "1.0.0"@
    }

    /// The baseline prediction; `None` without an RSI value.  The confidence
    /// is the largest probability; the expected return and volatility are the
    /// row's one-bar return and realized volatility.
    pub fn predict_row(&self, features: &FeatureRow, now_ms: i64) -> (r: Option<ModelPrediction>)
        requires
            self.thresholds_standard(),
        ensures
            features.rsi_14 is None ==> r is None,
            features.rsi_14 matches Some(rsi) ==> r matches Some(p) && {
                let probs = baseline_probs(rsi, crate::regime::or_default(features.trend_strength, decimal::dec_lit(0, 0)));
                &&& p.direction_probs == probs
                &&& p.confidence == decimal::dec_max(decimal::dec_max(probs.up, probs.down), probs.flat)
                &&& p.expected_return == features.return_1
                &&& p.volatility_forecast == features.realized_vol_20
                &&& p.timestamp_ms == now_ms
                &&& p.model_version@ == "1.0.0"@
                &&& p.feature_importance is None
            },
    {
        let rsi = match features.rsi_14 {
            Some(r) => r,
            None => return None,
        };
        let trend = match features.trend_strength {
            Some(t) => t,
            None => Dec::new(0, 0),
        };
        let neg_trend = self.trend_threshold.neg();
        let probs = if rsi.lt(&self.rsi_long_threshold) && trend.gt(&self.trend_threshold) {
            DirectionProbs { up: Dec::new(55, 2), down: Dec::new(20, 2), flat: Dec::new(25, 2) }
        } else if rsi.gt(&self.rsi_short_threshold) && trend.lt(&neg_trend) {
            DirectionProbs { up: Dec::new(20, 2), down: Dec::new(55, 2), flat: Dec::new(25, 2) }
        } else if rsi.lt(&Dec::new(40, 0)) {
            DirectionProbs { up: Dec::new(40, 2), down: Dec::new(25, 2), flat: Dec::new(35, 2) }
        } else if rsi.gt(&Dec::new(60, 0)) {
            DirectionProbs { up: Dec::new(25, 2), down: Dec::new(40, 2), flat: Dec::new(35, 2) }
        } else {
            DirectionProbs { up: Dec::new(30, 2), down: Dec::new(30, 2), flat: Dec::new(40, 2) }
        };
        proof {
            decimal::lemma_lit(5, 1);
            decimal::lemma_lit(-5, 1);
            assert(decimal::dec_lit(-5, 1)@ == -decimal::dec_lit(5, 1)@);
        }
        let confidence = probs.max_prob();
        Some(
            ModelPrediction {
                model_id: self.id.clone(),
                model_version: self.version.clone(),
                timestamp_ms: now_ms,
                direction_probs: probs,
                expected_return: features.return_1,
                volatility_forecast: features.realized_vol_20,
                confidence,
                feature_importance: None,
            },
        )
    }
}

/// The probabilities a classifier with the given RSI and trend cut-offs
/// assigns: oversold in an uptrend favors up, overbought in a downtrend
/// favors down, RSI below 40 leans up, above 60 leans down, otherwise flat.
pub open spec fn threshold_probs(long_cut: Dec, short_cut: Dec, trend_cut: Dec, rsi: Dec, trend: Dec) -> DirectionProbs {
    if rsi@ < long_cut@ && trend@ > trend_cut@ {
        DirectionProbs { up: decimal::dec_lit(55, 2), down: decimal::dec_lit(20, 2), flat: decimal::dec_lit(25, 2) }
    } else if rsi@ > short_cut@ && trend@ < -trend_cut@ {
        DirectionProbs { up: decimal::dec_lit(20, 2), down: decimal::dec_lit(55, 2), flat: decimal::dec_lit(25, 2) }
    } else if rsi@ < decimal::dec_lit(40, 0)@ {
        DirectionProbs { up: decimal::dec_lit(40, 2), down: decimal::dec_lit(25, 2), flat: decimal::dec_lit(35, 2) }
    } else if rsi@ > decimal::dec_lit(60, 0)@ {
        DirectionProbs { up: decimal::dec_lit(25, 2), down: decimal::dec_lit(40, 2), flat: decimal::dec_lit(35, 2) }
    } else {
        DirectionProbs { up: decimal::dec_lit(30, 2), down: decimal::dec_lit(30, 2), flat: decimal::dec_lit(40, 2) }
    }
}

impl ThresholdClassifier {
    /// The RSI below which (in an uptrend) the classifier favors up.
    pub closed spec fn long_cut(&self) -> Dec {
        self.rsi_long_threshold
    }

    /// The RSI above which (in a downtrend) the classifier favors down.
    pub closed spec fn short_cut(&self) -> Dec {
        self.rsi_short_threshold
    }

    /// The trend strength beyond which a trend counts.
    pub closed spec fn trend_cut(&self) -> Dec {
        self.trend_threshold
    }
}

impl PredictionModel for ThresholdClassifier {
    closed spec fn id_spec(&self) -> Seq<char> {
        self.id@
    }

    closed spec fn version_spec(&self) -> Seq<char> {
        self.version@
    }

    /// Without an RSI value nothing; otherwise the threshold probabilities
    /// (a missing trend counts as zero), the largest of them as confidence,
    /// the row's one-bar return and realized volatility, stamped with the
    /// classifier's id and version (and the clock's time).
    open spec fn prediction_relation(&self, features: FeatureRow, r: Option<ModelPrediction>) -> bool {
        match features.rsi_14 {
            None => r is None,
            Some(rsi) => r matches Some(p) && {
                let probs = threshold_probs(
                    self.long_cut(),
                    self.short_cut(),
                    self.trend_cut(),
                    rsi,
                    crate::regime::or_default(features.trend_strength, decimal::dec_lit(0, 0)),
                );
                &&& p.model_id@ == self.id_spec()
                &&& p.model_version@ == self.version_spec()
                &&& p.direction_probs == probs
                &&& p.confidence == decimal::dec_max(decimal::dec_max(probs.up, probs.down), probs.flat)
                &&& p.expected_return == features.return_1
                &&& p.volatility_forecast == features.realized_vol_20
                &&& p.feature_importance is None
            },
        }
    }

    fn model_id(&self) -> (r: &str) {
        self.id.as_str()
    }

    fn version(&self) -> (r: &str) {
        self.version.as_str()
    }

    fn predict(&self, features: &FeatureRow) -> (r: Option<ModelPrediction>) {
        let now = crate::risk::now_millis();
        let rsi = match features.rsi_14 {
            Some(r) => r,
            None => return None,
        };
        let trend = match features.trend_strength {
            Some(t) => t,
            None => Dec::new(0, 0),
        };
        let neg_trend = self.trend_threshold.neg();
        let probs = if rsi.lt(&self.rsi_long_threshold) && trend.gt(&self.trend_threshold) {
            DirectionProbs { up: Dec::new(55, 2), down: Dec::new(20, 2), flat: Dec::new(25, 2) }
        } else if rsi.gt(&self.rsi_short_threshold) && trend.lt(&neg_trend) {
            DirectionProbs { up: Dec::new(20, 2), down: Dec::new(55, 2), flat: Dec::new(25, 2) }
        } else if rsi.lt(&Dec::new(40, 0)) {
            DirectionProbs { up: Dec::new(40, 2), down: Dec::new(25, 2), flat: Dec::new(35, 2) }
        } else if rsi.gt(&Dec::new(60, 0)) {
            DirectionProbs { up: Dec::new(25, 2), down: Dec::new(40, 2), flat: Dec::new(35, 2) }
        } else {
            DirectionProbs { up: Dec::new(30, 2), down: Dec::new(30, 2), flat: Dec::new(40, 2) }
        };
        proof {
            decimal::lemma_lit(5, 1);
            decimal::lemma_lit(-5, 1);
        }
        let confidence = probs.max_prob();
        Some(
            ModelPrediction {
                model_id: self.id.clone(),
                model_version: self.version.clone(),
                timestamp_ms: now,
                direction_probs: probs,
                expected_return: features.return_1,
                volatility_forecast: features.realized_vol_20,
                confidence,
                feature_importance: None,
            },
        )
    }
}

/// The ensemble's view of a set of predictions.
#[derive(Clone, Debug)]
pub struct EnsembleResult {
    pub direction: String,
    pub avg_up_prob: Dec,
    pub avg_down_prob: Dec,
    pub avg_flat_prob: Dec,
    pub avg_confidence: Dec,
    pub model_agreement: Dec,
    pub num_models: usize,
    pub meets_threshold: bool,
}

/// Averages model predictions.
pub struct EnsembleScorer {
    pub min_confidence: Dec,
}

/// Running totals of up, down, flat and confidence over the first `n`
/// predictions.
pub open spec fn ensemble_totals(ps: Seq<ModelPrediction>, n: nat) -> (Option<Dec>, Option<Dec>, Option<Dec>, Option<Dec>)
    decreases n,
{
    if n == 0 {
        (Some(decimal::dec_zero()), Some(decimal::dec_zero()), Some(decimal::dec_zero()), Some(decimal::dec_zero()))
    } else {
        let (u, d, f, c) = ensemble_totals(ps, (n - 1) as nat);
        let p = ps[n - 1];
        (
            decimal::add_spec(u, Some(p.direction_probs.up)),
            decimal::add_spec(d, Some(p.direction_probs.down)),
            decimal::add_spec(f, Some(p.direction_probs.flat)),
            decimal::add_spec(c, Some(p.confidence)),
        )
    }
}

/// Number of predictions whose own most likely direction is `dir`.
pub open spec fn agreeing(ps: Seq<ModelPrediction>, dir: Seq<char>) -> nat
    decreases ps.len(),
{
    if ps.len() == 0 {
        0
    } else {
        let p = ps.last().direction_probs;
        agreeing(ps.drop_last(), dir) + if direction_name(p.up, p.down, p.flat) == dir {
            1nat
        } else {
            0nat
        }
    }
}

/// The ensemble result: averaged probabilities and confidence, the direction
/// of the averages, the fraction of models agreeing with it, and whether the
/// average confidence reaches the minimum.  `None` for no predictions or on
/// overflow.
pub open spec fn ensemble_spec(min_confidence: Dec, ps: Seq<ModelPrediction>) -> Option<EnsembleResult> {
    if ps.len() == 0 {
        None
    } else {
        let n = Some(dec_of_u32(ps.len() as int));
        let (tu, td, tf, tc) = ensemble_totals(ps, ps.len());
        match (
            decimal::div_spec(tu, n),
            decimal::div_spec(td, n),
            decimal::div_spec(tf, n),
            decimal::div_spec(tc, n),
        ) {
            (Some(u), Some(d), Some(f), Some(c)) => {
                let dir = direction_name(u, d, f);
                match decimal::div_spec(Some(dec_of_u32(agreeing(ps, dir) as int)), n) {
                    Some(a) => Some(
                        EnsembleResult {
                            direction: arbitrary(),
                            avg_up_prob: u,
                            avg_down_prob: d,
                            avg_flat_prob: f,
                            avg_confidence: c,
                            model_agreement: a,
                            num_models: ps.len() as usize,
                            meets_threshold: c@ >= min_confidence@,
                        },
                    ),
                    None => None,
                }
            },
            _ => None,
        }
    }
}

/// Whether `r` is the ensemble result for the predictions (the direction
/// compared as text).
pub open spec fn is_ensemble_result(r: EnsembleResult, min_confidence: Dec, ps: Seq<ModelPrediction>) -> bool {
    ensemble_spec(min_confidence, ps) matches Some(e) && {
        &&& r.avg_up_prob == e.avg_up_prob
        &&& r.avg_down_prob == e.avg_down_prob
        &&& r.avg_flat_prob == e.avg_flat_prob
        &&& r.avg_confidence == e.avg_confidence
        &&& r.model_agreement == e.model_agreement
        &&& r.num_models == e.num_models
        &&& r.meets_threshold == e.meets_threshold
        &&& r.direction@ == direction_name(e.avg_up_prob, e.avg_down_prob, e.avg_flat_prob)
    }
}

impl EnsembleScorer {
    pub fn new(min_confidence: Dec) -> (r: EnsembleScorer)
        ensures
            r.min_confidence == min_confidence,
    {
        EnsembleScorer { min_confidence }
    }

    /// Scores the predictions of the registered models.
    pub fn score_predictions(&self, predictions: &[ModelPrediction]) -> (r: Option<EnsembleResult>)
        ensures
            r is Some <==> ensemble_spec(self.min_confidence, predictions@) is Some,
            r matches Some(e) ==> is_ensemble_result(e, self.min_confidence, predictions@),
    {
        if predictions.len() == 0 {
            return None;
        }
        let n = Dec::from_u32(#[verifier::truncate] (predictions.len() as u32));
        let mut tu = Some(Dec::zero());
        let mut td = Some(Dec::zero());
        let mut tf = Some(Dec::zero());
        let mut tc = Some(Dec::zero());
        let mut i: usize = 0;
        while i < predictions.len()
            invariant
                i <= predictions.len(),
                (tu, td, tf, tc) == ensemble_totals(predictions@, i as nat),
            decreases predictions.len() - i,
        {
            let p = &predictions[i];
            tu = add_opt(tu, Some(p.direction_probs.up));
            td = add_opt(td, Some(p.direction_probs.down));
            tf = add_opt(tf, Some(p.direction_probs.flat));
            tc = add_opt(tc, Some(p.confidence));
            i = i + 1;
        }
        let (u, d, f, c) = match (
            div_opt(tu, Some(n)),
            div_opt(td, Some(n)),
            div_opt(tf, Some(n)),
            div_opt(tc, Some(n)),
        ) {
            (Some(u), Some(d), Some(f), Some(c)) => (u, d, f, c),
            _ => return None,
        };
        let probs = DirectionProbs { up: u, down: d, flat: f };
        let direction = probs.predicted_direction();
        let mut agreement: usize = 0;
        let mut j: usize = 0;
        while j < predictions.len()
            invariant
                j <= predictions.len(),
                agreement <= j,
                agreement == agreeing(predictions@.subrange(0, j as int), direction@),
            decreases predictions.len() - j,
        {
            assert(predictions@.subrange(0, j + 1).drop_last() =~= predictions@.subrange(0, j as int));
            let pd = predictions[j].direction_probs.predicted_direction();
            if same_text(pd, direction) {
                agreement = agreement + 1;
            }
            j = j + 1;
        }
        assert(predictions@.subrange(0, predictions@.len() as int) =~= predictions@);
        let ratio = match Dec::from_u32(#[verifier::truncate] (agreement as u32)).div(n) {
            Some(a) => a,
            None => return None,
        };
        Some(
            EnsembleResult {
                direction: String::from_str(direction),
                avg_up_prob: u,
                avg_down_prob: d,
                avg_flat_prob: f,
                avg_confidence: c,
                model_agreement: ratio,
                num_models: predictions.len(),
                meets_threshold: c.ge(&self.min_confidence),
            },
        )
    }
}

/// The registered models, by id, with an optional champion.
pub struct ModelRegistry<M: PredictionModel> {
    models: Vec<(String, M)>,
    champion: Option<String>,
}

impl<M: PredictionModel> ModelRegistry<M> {
    /// The model registered under `id`.
    pub closed spec fn lookup(&self, id: Seq<char>) -> Option<M> {
        first_match(self.models@, id)
    }

    /// The champion's id, if one was chosen.
    pub closed spec fn champion_id(&self) -> Option<Seq<char>> {
        match self.champion {
            Some(c) => Some(c@),
            None => None,
        }
    }

    /// The number of registered models.
    pub closed spec fn model_count(&self) -> nat {
        self.models@.len()
    }

    /// No models and no champion.
    pub fn new() -> (r: Self)
        ensures
            forall|k: Seq<char>| #[trigger] r.lookup(k) is None,
            r.champion_id() is None,
            r.model_count() == 0,
    {
        ModelRegistry { models: Vec::new(), champion: None }
    }

    /// Registers `model` under its id, replacing any model of that id.
    pub fn register(&mut self, model: M)
        ensures
            forall|k: Seq<char>| #[trigger] final(self).lookup(k) == if k == model.id_spec() {
                Some(model)
            } else {
                old(self).lookup(k)
            },
            final(self).champion_id() == old(self).champion_id(),
    {
        let id = String::from_str(model.model_id());
        let found = find_key(&self.models, id.as_str());
        let ghost before = self.models@;
        match found {
            Some(i) => {
                self.models.set(i, (id, model));
                proof {
                    lemma_first_match_update(before, id@, i as int, (id, model));
                }
            },
            None => {
                self.models.push((id, model));
                proof {
                    lemma_first_match_push(before, (id, model));
                }
            },
        }
    }

    /// Makes the model `model_id` the champion, when it is registered.
    pub fn set_champion(&mut self, model_id: &str)
        ensures
            forall|k: Seq<char>| #[trigger] final(self).lookup(k) == old(self).lookup(k),
            final(self).champion_id() == if old(self).lookup(model_id@) is Some {
                Some(model_id@)
            } else {
                old(self).champion_id()
            },
    {
        if find_key(&self.models, model_id).is_some() {
            self.champion = Some(String::from_str(model_id));
        }
    }

    /// The champion's prediction: nothing without a registered champion.
    pub fn predict_champion(&self, features: &FeatureRow) -> (r: Option<ModelPrediction>)
        ensures
            match self.champion_id() {
                None => r is None,
                Some(c) => match self.lookup(c) {
                    None => r is None,
                    Some(m) => m.prediction_relation(*features, r),
                },
            },
    {
        let id = match &self.champion {
            Some(c) => c,
            None => return None,
        };
        match find_key(&self.models, id.as_str()) {
            Some(i) => self.models[i].1.predict(features),
            None => None,
        }
    }

    /// The predictions of every model that gives one.
    pub fn predict_all(&self, features: &FeatureRow) -> (r: Vec<ModelPrediction>)
        ensures
            r@.len() <= self.model_count(),
    {
        let mut out: Vec<ModelPrediction> = Vec::new();
        let mut i: usize = 0;
        while i < self.models.len()
            invariant
                i <= self.models@.len(),
                out@.len() <= i,
            decreases self.models@.len() - i,
        {
            match self.models[i].1.predict(features) {
                Some(p) => out.push(p),
                None => {},
            }
            i = i + 1;
        }
        out
    }
}

impl EnsembleScorer {
    /// Scores the predictions of all the registry's models.
    pub fn score<M: PredictionModel>(&self, registry: &ModelRegistry<M>, features: &FeatureRow) -> (r:
        Option<EnsembleResult>)
        ensures
            exists|ps: Seq<ModelPrediction>|
                #![trigger ensemble_spec(self.min_confidence, ps)]
                ps.len() <= registry.model_count() && (r is Some <==> ensemble_spec(
                    self.min_confidence,
                    ps,
                ) is Some) && (r matches Some(e) ==> is_ensemble_result(e, self.min_confidence, ps)),
    {
        let predictions = registry.predict_all(features);
        let r = self.score_predictions(predictions.as_slice());
        assert(predictions@.len() <= registry.model_count());
        r
    }
}

} // verus!
