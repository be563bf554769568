//! Technical indicators over decimal price series.
//!
//! Each indicator is specified by a spec function that spells out the
//! computation in terms of `rust_decimal`'s operations (named in
//! `decimal`).  A result of `None` means either that the series is too short
//! (as documented per indicator) or that an intermediate value left
//! `Decimal`'s range.
use vstd::prelude::*;
use crate::decimal::{self, Dec, add_opt, sub_opt, mul_opt, div_opt};

verus! {

// ---------------------------------------------------------------------------
// Sums
// ---------------------------------------------------------------------------

/// Sum of optional terms, left to right from zero; `None` once any term or
/// partial sum is `None`.
pub open spec fn sum_opt_spec(s: Seq<Option<Dec>>) -> Option<Dec>
    decreases s.len(),
{
    if s.len() == 0 {
        Some(decimal::dec_zero())
    } else {
        decimal::add_spec(sum_opt_spec(s.drop_last()), s.last())
    }
}

/// Sum of the values, left to right from zero (what `Iterator::sum` does).
pub open spec fn sum_spec(s: Seq<Dec>) -> Option<Dec>
    decreases s.len(),
{
    if s.len() == 0 {
        Some(decimal::dec_zero())
    } else {
        decimal::add_spec(sum_spec(s.drop_last()), Some(s.last()))
    }
}

/// The decimal `Decimal::from(n as u32)`.
pub open spec fn dec_of_u32(n: int) -> Dec {
    decimal::dec_lit((n as u32) as int, 0)
}

/// Sum of a slice of decimals.
pub fn sum(values: &[Dec]) -> (r: Option<Dec>)
    ensures
        r == sum_spec(values@),
{
    let mut acc = Some(Dec::zero());
    let mut i: usize = 0;
    while i < values.len()
        invariant
            0 <= i <= values.len(),
            acc == sum_spec(values@.subrange(0, i as int)),
        decreases values.len() - i,
    {
        assert(values@.subrange(0, i + 1).drop_last() =~= values@.subrange(0, i as int));
        acc = add_opt(acc, Some(values[i]));
        i = i + 1;
    }
    assert(values@.subrange(0, values@.len() as int) =~= values@);
    acc
}

// ---------------------------------------------------------------------------
// Moving averages
// ---------------------------------------------------------------------------

/// Simple moving average of the last `period` values.
pub open spec fn sma_spec(values: Seq<Dec>, period: int) -> Option<Dec> {
    if values.len() < period || period <= 0 {
        None
    } else {
        decimal::div_spec(
            sum_spec(values.subrange(values.len() - period, values.len() as int)),
            Some(dec_of_u32(period)),
        )
    }
}

/// Simple Moving Average.  `None` when fewer than `period` values are given
/// or `period` is zero.
pub fn sma(values: &[Dec], period: usize) -> (r: Option<Dec>)
    ensures
        r == sma_spec(values@, period as int),
{
    if values.len() < period || period == 0 {
        return None;
    }
    let slice = &values[values.len() - period..values.len()];
    let total = sum(slice);
    div_opt(total, Some(Dec::from_u32(#[verifier::truncate] (period as u32))))
}

/// The smoothing factor `2 / (period + 1)`.
pub open spec fn ema_multiplier(period: int) -> Option<Dec> {
    decimal::div_spec(Some(decimal::dec_lit(2, 0)), decimal::add_spec(Some(dec_of_u32(period)), Some(decimal::dec_lit(1, 0))))
}

/// One smoothing step: `(val - prev) * mult + prev`.
pub open spec fn ema_step(prev: Option<Dec>, val: Dec, mult: Option<Dec>) -> Option<Dec> {
    decimal::add_spec(decimal::mul_spec(decimal::sub_spec(Some(val), prev), mult), prev)
}

/// The average after the first `n` values: the SMA of the first `period`
/// values, then one smoothing step per further value.
pub open spec fn ema_upto(values: Seq<Dec>, period: int, mult: Option<Dec>, n: nat) -> Option<
    Dec,
>
    decreases n,
{
    if n <= period || n == 0 {
        sma_spec(values.subrange(0, period), period)
    } else {
        ema_step(ema_upto(values, period, mult, (n - 1) as nat), values[n - 1], mult)
    }
}

pub open spec fn ema_spec(values: Seq<Dec>, period: int) -> Option<Dec> {
    if values.len() < period || period <= 0 {
        None
    } else {
        match ema_multiplier(period) {
            None => None,
            Some(m) => ema_upto(values, period, Some(m), values.len()),
        }
    }
}

/// Exponential Moving Average seeded with the SMA of the first `period`
/// values.  `None` when fewer than `period` values are given or `period` is 0.
pub fn ema(values: &[Dec], period: usize) -> (r: Option<Dec>)
    ensures
        r == ema_spec(values@, period as int),
{
    if values.len() < period || period == 0 {
        return None;
    }
    let multiplier = div_opt(
        Some(Dec::new(2, 0)),
        add_opt(Some(Dec::from_u32(#[verifier::truncate] (period as u32))), Some(Dec::new(1, 0))),
    );
    let mult = match multiplier {
        None => return None,
        Some(m) => m,
    };
    let seed = sma(&values[0..period], period);
    assert(values@.subrange(0, period as int) =~= values@.subrange(0, period as int));
    let mut ema_val = match seed {
        None => {
            assert(ema_upto(values@, period as int, Some(mult), period as nat) == seed);
            proof {
                lemma_ema_none_stays(values@, period as int, Some(mult), period as nat, values@.len());
            }
            return None;
        },
        Some(v) => v,
    };
    let mut i: usize = period;
    while i < values.len()
        invariant
            period <= i <= values.len(),
            period > 0,
            ema_multiplier(period as int) == Some(mult),
            Some(ema_val) == ema_upto(values@, period as int, Some(mult), i as nat),
        decreases values.len() - i,
    {
        let next = add_opt(mul_opt(sub_opt(Some(values[i]), Some(ema_val)), Some(mult)), Some(ema_val));
        match next {
            None => {
                proof {
                    lemma_ema_none_stays(values@, period as int, Some(mult), (i + 1) as nat, values@.len());
                }
                return None;
            },
            Some(v) => {
                ema_val = v;
            },
        }
        i = i + 1;
    }
    Some(ema_val)
}

/// Once the running average overflows it stays `None`.
pub proof fn lemma_ema_none_stays(values: Seq<Dec>, period: int, mult: Option<Dec>, k: nat, n: nat)
    requires
        k <= n,
        ema_upto(values, period, mult, k) is None,
    ensures
        ema_upto(values, period, mult, n) is None,
    decreases n - k,
{
    if k < n {
        lemma_ema_none_stays_step(values, period, mult, k);
        lemma_ema_none_stays(values, period, mult, k + 1, n);
    }
}

proof fn lemma_ema_none_stays_step(values: Seq<Dec>, period: int, mult: Option<Dec>, k: nat)
    requires
        ema_upto(values, period, mult, k) is None,
    ensures
        ema_upto(values, period, mult, k + 1) is None,
{
    if k + 1 <= period {
        assert(ema_upto(values, period, mult, k + 1) == ema_upto(values, period, mult, k));
    }
}

// ---------------------------------------------------------------------------
// Relative Strength Index
// ---------------------------------------------------------------------------

/// `closes[i] - closes[i - 1]`.
pub open spec fn price_change(c: Seq<Dec>, i: int) -> Option<Dec> {
    decimal::sub_spec(Some(c[i]), Some(c[i - 1]))
}

/// Every consecutive change is representable.
pub open spec fn changes_ok(c: Seq<Dec>) -> bool {
    forall|i: int| 1 <= i < c.len() ==> (#[trigger] price_change(c, i)) is Some
}

/// Gains: `change` where the change is positive, else zero.
pub open spec fn gains_seq(c: Seq<Dec>) -> Seq<Dec> {
    Seq::new(
        (c.len() - 1) as nat,
        |j: int|
            if price_change(c, j + 1)->0@ > 0 {
                price_change(c, j + 1)->0
            } else {
                decimal::dec_zero()
            },
    )
}

/// Losses: `|change|` where the change is not positive, else zero.
pub open spec fn losses_seq(c: Seq<Dec>) -> Seq<Dec> {
    Seq::new(
        (c.len() - 1) as nat,
        |j: int|
            if price_change(c, j + 1)->0@ > 0 {
                decimal::dec_zero()
            } else {
                decimal::dec_abs_of(price_change(c, j + 1)->0)
            },
    )
}

/// Wilder smoothing: `(avg * (period - 1) + x) / period`.
pub open spec fn wilder_step(avg: Option<Dec>, x: Dec, pd: Dec) -> Option<Dec> {
    decimal::div_spec(
        decimal::add_spec(
            decimal::mul_spec(avg, decimal::sub_spec(Some(pd), Some(decimal::dec_lit(1, 0)))),
            Some(x),
        ),
        Some(pd),
    )
}

/// Average of the first `period` terms, then Wilder smoothing through term `k`.
pub open spec fn wilder_avg(xs: Seq<Dec>, period: int, pd: Dec, k: nat) -> Option<Dec>
    decreases k,
{
    if k <= period || k == 0 {
        decimal::div_spec(sum_spec(xs.subrange(0, period)), Some(pd))
    } else {
        wilder_step(wilder_avg(xs, period, pd, (k - 1) as nat), xs[k - 1], pd)
    }
}

/// `100 - 100 / (1 + avg_gain / avg_loss)`, or 100 when the average loss is zero.
pub open spec fn rsi_from_averages(ag: Option<Dec>, al: Option<Dec>) -> Option<Dec> {
    match (ag, al) {
        (Some(g), Some(l)) => if l@ == 0 {
            Some(decimal::dec_lit(100, 0))
        } else {
            decimal::sub_spec(
                Some(decimal::dec_lit(100, 0)),
                decimal::div_spec(
                    Some(decimal::dec_lit(100, 0)),
                    decimal::add_spec(Some(decimal::dec_lit(1, 0)), decimal::div_spec(Some(g), Some(l))),
                ),
            )
        },
        _ => None,
    }
}

pub open spec fn rsi_spec(c: Seq<Dec>, period: int) -> Option<Dec> {
    if c.len() < period + 1 || period <= 0 {
        None
    } else if !changes_ok(c) {
        None
    } else {
        let pd = dec_of_u32(period);
        let n = (c.len() - 1) as nat;
        rsi_from_averages(
            wilder_avg(gains_seq(c), period, pd, n),
            wilder_avg(losses_seq(c), period, pd, n),
        )
    }
}

/// Relative Strength Index with Wilder smoothing.  `None` when fewer than
/// `period + 1` closes are given or `period` is zero.
pub fn rsi(closes: &[Dec], period: usize) -> (r: Option<Dec>)
    ensures
        r == rsi_spec(closes@, period as int),
{
    if closes.len() <= period || period == 0 {
        return None;
    }
    let mut gains: Vec<Dec> = Vec::new();
    let mut losses: Vec<Dec> = Vec::new();
    let mut i: usize = 1;
    while i < closes.len()
        invariant
            1 <= i <= closes.len(),
            gains@.len() == i - 1,
            losses@.len() == i - 1,
            forall|k: int| 1 <= k < i ==> (#[trigger] price_change(closes@, k)) is Some,
            forall|j: int| 0 <= j < i - 1 ==> gains@[j] == #[trigger] gains_seq(closes@)[j],
            forall|j: int| 0 <= j < i - 1 ==> losses@[j] == #[trigger] losses_seq(closes@)[j],
        decreases closes.len() - i,
    {
        let change = match closes[i].sub(closes[i - 1]) {
            None => {
                assert(price_change(closes@, i as int) is None);
                return None;
            },
            Some(ch) => ch,
        };
        if change.gt(&Dec::zero()) {
            gains.push(change);
            losses.push(Dec::zero());
        } else {
            gains.push(Dec::zero());
            losses.push(change.abs());
        }
        i = i + 1;
    }
    assert(changes_ok(closes@));
    assert(gains@ =~= gains_seq(closes@));
    assert(losses@ =~= losses_seq(closes@));
    let period_dec = Dec::from_u32(#[verifier::truncate] (period as u32));
    let mut avg_gain = div_opt(sum(&gains[0..period]), Some(period_dec));
    let mut avg_loss = div_opt(sum(&losses[0..period]), Some(period_dec));
    let mut k: usize = period;
    while k < gains.len()
        invariant
            period <= k <= gains@.len(),
            period > 0,
            gains@ == gains_seq(closes@),
            losses@ == losses_seq(closes@),
            gains@.len() == losses@.len(),
            period_dec == dec_of_u32(period as int),
            avg_gain == wilder_avg(gains@, period as int, period_dec, k as nat),
            avg_loss == wilder_avg(losses@, period as int, period_dec, k as nat),
        decreases gains.len() - k,
    {
        let one = Dec::new(1, 0);
        avg_gain = div_opt(
            add_opt(mul_opt(avg_gain, period_dec.sub(one)), Some(gains[k])),
            Some(period_dec),
        );
        avg_loss = div_opt(
            add_opt(mul_opt(avg_loss, period_dec.sub(one)), Some(losses[k])),
            Some(period_dec),
        );
        k = k + 1;
    }
    match (avg_gain, avg_loss) {
        (Some(g), Some(l)) => {
            let hundred = Dec::new(100, 0);
            if l.is_zero() {
                Some(hundred)
            } else {
                let rs = g.div(l);
                sub_opt(Some(hundred), div_opt(Some(hundred), add_opt(Some(Dec::new(1, 0)), rs)))
            }
        },
        _ => None,
    }
}

// ---------------------------------------------------------------------------
// Average True Range
// ---------------------------------------------------------------------------

/// `max(max(high - low, |high - prev_close|), |low - prev_close|)` at bar `i`.
pub open spec fn true_range(h: Seq<Dec>, l: Seq<Dec>, c: Seq<Dec>, i: int) -> Option<Dec> {
    match (
        decimal::sub_spec(Some(h[i]), Some(l[i])),
        decimal::sub_spec(Some(h[i]), Some(c[i - 1])),
        decimal::sub_spec(Some(l[i]), Some(c[i - 1])),
    ) {
        (Some(hl), Some(hc), Some(lc)) => Some(
            decimal::dec_max(
                decimal::dec_max(hl, decimal::dec_abs_of(hc)),
                decimal::dec_abs_of(lc),
            ),
        ),
        _ => None,
    }
}

pub open spec fn true_ranges_ok(h: Seq<Dec>, l: Seq<Dec>, c: Seq<Dec>) -> bool {
    forall|i: int| 1 <= i < h.len() ==> (#[trigger] true_range(h, l, c, i)) is Some
}

pub open spec fn true_ranges(h: Seq<Dec>, l: Seq<Dec>, c: Seq<Dec>) -> Seq<Dec> {
    Seq::new((h.len() - 1) as nat, |j: int| true_range(h, l, c, j + 1)->0)
}

pub open spec fn atr_spec(h: Seq<Dec>, l: Seq<Dec>, c: Seq<Dec>, period: int) -> Option<Dec> {
    if h.len() < period + 1 || h.len() != l.len() || h.len() != c.len() {
        None
    } else if !true_ranges_ok(h, l, c) {
        None
    } else {
        sma_spec(true_ranges(h, l, c), period)
    }
}

/// The true range `tr` of bar `i` covers the bar's own range
/// `high - low` and both gaps from the previous close, `|high - prev_close|`
/// and `|low - prev_close|`, and is one of the three.
pub open spec fn covers_spans(tr: Dec, h: Seq<Dec>, l: Seq<Dec>, c: Seq<Dec>, i: int) -> bool {
    let hl = decimal::sub_spec(Some(h[i]), Some(l[i]));
    let hc = decimal::sub_spec(Some(h[i]), Some(c[i - 1]));
    let lc = decimal::sub_spec(Some(l[i]), Some(c[i - 1]));
    &&& hl is Some && hc is Some && lc is Some
    &&& tr@ >= hl->0@
    &&& tr@ >= decimal::dec_abs_of(hc->0)@
    &&& tr@ >= decimal::dec_abs_of(lc->0)@
    &&& (tr == hl->0 || tr == decimal::dec_abs_of(hc->0) || tr == decimal::dec_abs_of(lc->0))
}

/// The ATR is the average of the last `period` true ranges, and the true
/// range of every bar covers its own range and both gaps from the previous
/// close (and is one of them).
pub proof fn law_atr_covers_gaps(h: Seq<Dec>, l: Seq<Dec>, c: Seq<Dec>, period: int)
    requires
        atr_spec(h, l, c, period) is Some,
    ensures
        atr_spec(h, l, c, period) == sma_spec(true_ranges(h, l, c), period),
        true_ranges(h, l, c).len() == h.len() - 1,
        forall|j: int|
            0 <= j < h.len() - 1 ==> covers_spans(#[trigger] true_ranges(h, l, c)[j], h, l, c, j + 1),
{
    assert forall|j: int| 0 <= j < h.len() - 1 implies covers_spans(
        #[trigger] true_ranges(h, l, c)[j],
        h,
        l,
        c,
        j + 1,
    ) by {
        assert(true_range(h, l, c, j + 1) is Some);
    }
}

/// Average True Range: the SMA of the last `period` true ranges.  `None`
/// when the three series differ in length or hold fewer than `period + 1` bars.
pub fn atr(highs: &[Dec], lows: &[Dec], closes: &[Dec], period: usize) -> (r: Option<Dec>)
    ensures
        r == atr_spec(highs@, lows@, closes@, period as int),
{
    if highs.len() <= period || highs.len() != lows.len() || highs.len() != closes.len() {
        return None;
    }
    let mut trs: Vec<Dec> = Vec::new();
    let mut i: usize = 1;
    while i < highs.len()
        invariant
            1 <= i <= highs.len(),
            highs@.len() == lows@.len(),
            highs@.len() == closes@.len(),
            trs@.len() == i - 1,
            forall|k: int| 1 <= k < i ==> (#[trigger] true_range(highs@, lows@, closes@, k)) is Some,
            forall|j: int|
                0 <= j < i - 1 ==> trs@[j] == #[trigger] true_ranges(highs@, lows@, closes@)[j],
        decreases highs.len() - i,
    {
        let hl = highs[i].sub(lows[i]);
        let hc = highs[i].sub(closes[i - 1]);
        let lc = lows[i].sub(closes[i - 1]);
        match (hl, hc, lc) {
            (Some(a), Some(b), Some(d)) => {
                trs.push(a.max(b.abs()).max(d.abs()));
            },
            _ => {
                assert(true_range(highs@, lows@, closes@, i as int) is None);
                return None;
            },
        }
        i = i + 1;
    }
    assert(true_ranges_ok(highs@, lows@, closes@));
    assert(trs@ =~= true_ranges(highs@, lows@, closes@));
    sma(&trs, period)
}

// ---------------------------------------------------------------------------
// MACD
// ---------------------------------------------------------------------------

pub open spec fn macd_spec(c: Seq<Dec>, fast: int, slow: int) -> Option<Dec> {
    match (ema_spec(c, fast), ema_spec(c, slow)) {
        (Some(f), Some(s)) => decimal::sub_spec(Some(f), Some(s)),
        _ => None,
    }
}

/// MACD line: fast EMA minus slow EMA.
pub fn macd(closes: &[Dec], fast: usize, slow: usize) -> (r: Option<Dec>)
    ensures
        r == macd_spec(closes@, fast as int, slow as int),
{
    let fast_ema = match ema(closes, fast) {
        None => return None,
        Some(v) => v,
    };
    let slow_ema = match ema(closes, slow) {
        None => return None,
        Some(v) => v,
    };
    fast_ema.sub(slow_ema)
}

/// The MACD line over each prefix `closes[..slow + j]`.
pub open spec fn macd_series(c: Seq<Dec>, fast: int, slow: int) -> Seq<Dec> {
    Seq::new(
        (c.len() - slow + 1) as nat,
        |j: int| macd_spec(c.subrange(0, slow + j), fast, slow)->0,
    )
}

pub open spec fn macd_series_ok(c: Seq<Dec>, fast: int, slow: int) -> bool {
    forall|j: int|
        0 <= j < c.len() - slow + 1 ==> (#[trigger] macd_spec(c.subrange(0, slow + j), fast, slow)) is Some
}

pub open spec fn macd_full_spec(c: Seq<Dec>, fast: int, slow: int, signal: int) -> Option<
    (Dec, Dec, Dec),
> {
    if fast >= slow || c.len() < slow + signal || fast == 0 || !macd_series_ok(c, fast, slow) {
        None
    } else {
        let series = macd_series(c, fast, slow);
        match ema_spec(series, signal) {
            None => None,
            Some(sig) => match decimal::sub_spec(Some(series.last()), Some(sig)) {
                Some(h) => Some((series.last(), sig, h)),
                None => None,
            },
        }
    }
}

/// Full MACD: `(macd_line, signal_line, histogram)`, where the signal line is
/// the EMA over the MACD line of every prefix from `slow` bars on.  `None`
/// when `fast >= slow` or fewer than `slow + signal_period` closes are given.
pub fn macd_full(closes: &[Dec], fast: usize, slow: usize, signal_period: usize) -> (r: Option<
    (Dec, Dec, Dec),
>)
    ensures
        r == macd_full_spec(closes@, fast as int, slow as int, signal_period as int),
{
    if fast >= slow {
        return None;
    }
    if closes.len() < slow || closes.len() - slow < signal_period {
        return None;
    }
    if fast == 0 {
        return None;
    }
    let mut series: Vec<Dec> = Vec::new();
    let count = closes.len() - slow + 1;
    let mut j: usize = 0;
    while j < count
        invariant
            0 < fast < slow <= closes.len(),
            count == closes.len() - slow + 1,
            j <= count,
            series@.len() == j,
            forall|k: int|
                0 <= k < j ==> (#[trigger] macd_spec(closes@.subrange(0, slow + k), fast as int, slow as int)) is Some,
            forall|k: int|
                0 <= k < j ==> series@[k] == #[trigger] macd_series(closes@, fast as int, slow as int)[k],
        decreases count - j,
    {
        let m = macd(&closes[0..slow + j], fast, slow);
        match m {
            None => {
                assert(!macd_series_ok(closes@, fast as int, slow as int)) by {
                    assert(macd_spec(closes@.subrange(0, slow + j), fast as int, slow as int) is None);
                }
                return None;
            },
            Some(v) => {
                series.push(v);
            },
        }
        j = j + 1;
    }
    assert(macd_series_ok(closes@, fast as int, slow as int));
    assert(series@ =~= macd_series(closes@, fast as int, slow as int));
    let line = series[series.len() - 1];
    let sig = match ema(&series, signal_period) {
        None => return None,
        Some(s) => s,
    };
    match line.sub(sig) {
        Some(h) => Some((line, sig, h)),
        None => None,
    }
}

// ---------------------------------------------------------------------------
// Square root, dispersion, bands
// ---------------------------------------------------------------------------

/// The convergence tolerance `0.00000001`.
pub open spec fn sqrt_tolerance() -> Dec {
    decimal::dec_lit(1, 8)
}

/// Up to `remaining` Newton steps `g' = (g + v / g) / 2`, stopping at the
/// first step that moves by less than the tolerance.
pub open spec fn sqrt_newton(v: Dec, guess: Dec, remaining: nat) -> Option<Dec>
    decreases remaining,
{
    if remaining == 0 {
        Some(guess)
    } else {
        match decimal::div_spec(
            decimal::add_spec(Some(guess), decimal::div_spec(Some(v), Some(guess))),
            Some(decimal::dec_lit(2, 0)),
        ) {
            None => None,
            Some(ng) => match decimal::sub_spec(Some(ng), Some(guess)) {
                None => None,
                Some(d) => if decimal::dec_abs(d) < sqrt_tolerance()@ {
                    Some(ng)
                } else {
                    sqrt_newton(v, ng, (remaining - 1) as nat)
                },
            },
        }
    }
}

pub open spec fn decimal_sqrt_spec(v: Dec) -> Option<Dec> {
    if v@ < 0 {
        None
    } else if v@ == 0 {
        Some(decimal::dec_zero())
    } else {
        match decimal::div_spec(Some(v), Some(decimal::dec_lit(2, 0))) {
            None => None,
            Some(g) => sqrt_newton(v, g, 50),
        }
    }
}

/// Square root by at most 50 Newton steps from `value / 2`.  `None` for a
/// negative value.
pub fn decimal_sqrt(value: Dec) -> (r: Option<Dec>)
    ensures
        r == decimal_sqrt_spec(value),
{
    let zero = Dec::zero();
    if value.lt(&zero) {
        return None;
    }
    if value.eq_value(&zero) {
        return Some(zero);
    }
    let two = Dec::new(2, 0);
    let mut guess = match value.div(two) {
        None => return None,
        Some(g) => g,
    };
    let tolerance = Dec::new(1, 8);
    let mut step: usize = 0;
    while step < 50
        invariant
            step <= 50,
            value@ > 0,
            two == decimal::dec_lit(2, 0),
            tolerance == sqrt_tolerance(),
            decimal_sqrt_spec(value) == sqrt_newton(value, guess, (50 - step) as nat),
        decreases 50 - step,
    {
        let new_guess = match div_opt(add_opt(Some(guess), value.div(guess)), Some(two)) {
            None => return None,
            Some(g) => g,
        };
        let diff = match new_guess.sub(guess) {
            None => return None,
            Some(d) => d,
        };
        if diff.abs().lt(&tolerance) {
            return Some(new_guess);
        }
        guess = new_guess;
        step = step + 1;
    }
    Some(guess)
}

/// The squared deviations `(x - mean)^2` of each term.
pub open spec fn squared_deviations(s: Seq<Dec>, mean: Dec) -> Seq<Option<Dec>> {
    Seq::new(
        s.len(),
        |j: int|
            decimal::mul_spec(
                decimal::sub_spec(Some(s[j]), Some(mean)),
                decimal::sub_spec(Some(s[j]), Some(mean)),
            ),
    )
}

/// Sum of the squared deviations from `mean`.
fn sum_squared_deviations(values: &[Dec], mean: Dec) -> (r: Option<Dec>)
    ensures
        r == sum_opt_spec(squared_deviations(values@, mean)),
{
    let ghost terms = squared_deviations(values@, mean);
    let mut acc = Some(Dec::zero());
    let mut i: usize = 0;
    while i < values.len()
        invariant
            0 <= i <= values.len(),
            terms == squared_deviations(values@, mean),
            acc == sum_opt_spec(terms.subrange(0, i as int)),
        decreases values.len() - i,
    {
        assert(terms.subrange(0, i + 1).drop_last() =~= terms.subrange(0, i as int));
        let d = values[i].sub(mean);
        acc = add_opt(acc, mul_opt(d, d));
        i = i + 1;
    }
    assert(terms.subrange(0, values@.len() as int) =~= terms);
    acc
}

pub open spec fn std_deviation_spec(values: Seq<Dec>, period: int) -> Option<Dec> {
    if values.len() < period || period < 2 {
        None
    } else {
        match sma_spec(values, period) {
            None => None,
            Some(mean) => {
                let slice = values.subrange(values.len() - period, values.len() as int);
                match decimal::div_spec(
                    sum_opt_spec(squared_deviations(slice, mean)),
                    Some(dec_of_u32(period - 1)),
                ) {
                    None => None,
                    Some(var) => decimal_sqrt_spec(var),
                }
            },
        }
    }
}

/// Sample standard deviation (divisor `period - 1`) of the last `period`
/// values.  `None` when fewer than `period` values are given or `period < 2`.
pub fn std_deviation(values: &[Dec], period: usize) -> (r: Option<Dec>)
    ensures
        r == std_deviation_spec(values@, period as int),
{
    if values.len() < period || period < 2 {
        return None;
    }
    let slice = &values[values.len() - period..values.len()];
    let mean = match sma(values, period) {
        None => return None,
        Some(m) => m,
    };
    let variance = div_opt(
        sum_squared_deviations(slice, mean),
        Some(Dec::from_u32(#[verifier::truncate] ((period - 1) as u32))),
    );
    match variance {
        None => None,
        Some(v) => decimal_sqrt(v),
    }
}

pub open spec fn bollinger_spec(values: Seq<Dec>, period: int, num_std: Dec) -> Option<
    (Dec, Dec, Dec),
> {
    match (sma_spec(values, period), std_deviation_spec(values, period)) {
        (Some(middle), Some(sd)) => {
            let width = decimal::mul_spec(Some(num_std), Some(sd));
            match (
                decimal::add_spec(Some(middle), width),
                decimal::sub_spec(Some(middle), width),
            ) {
                (Some(upper), Some(lower)) => Some((upper, middle, lower)),
                _ => None,
            }
        },
        _ => None,
    }
}

/// Bollinger Bands `(upper, middle, lower)`: the SMA plus and minus
/// `num_std` standard deviations.
pub fn bollinger_bands(closes: &[Dec], period: usize, num_std: Dec) -> (r: Option<(Dec, Dec, Dec)>)
    ensures
        r == bollinger_spec(closes@, period as int, num_std),
{
    let middle = match sma(closes, period) {
        None => return None,
        Some(m) => m,
    };
    let sd = match std_deviation(closes, period) {
        None => return None,
        Some(s) => s,
    };
    let width = num_std.mul(sd);
    match (add_opt(Some(middle), width), sub_opt(Some(middle), width)) {
        (Some(upper), Some(lower)) => Some((upper, middle, lower)),
        _ => None,
    }
}

// ---------------------------------------------------------------------------
// Returns and ratios
// ---------------------------------------------------------------------------

/// `x - x^2/2 + x^3/3 - x^4/4`, evaluated as written.
pub open spec fn log_series(x: Dec) -> Option<Dec> {
    let x2 = decimal::mul_spec(Some(x), Some(x));
    let x3 = decimal::mul_spec(x2, Some(x));
    let x4 = decimal::mul_spec(x3, Some(x));
    decimal::sub_spec(
        decimal::add_spec(
            decimal::sub_spec(Some(x), decimal::div_spec(x2, Some(decimal::dec_lit(2, 0)))),
            decimal::div_spec(x3, Some(decimal::dec_lit(3, 0))),
        ),
        decimal::div_spec(x4, Some(decimal::dec_lit(4, 0))),
    )
}

pub open spec fn log_return_spec(current: Dec, previous: Dec) -> Option<Dec> {
    if previous@ <= 0 || current@ <= 0 {
        None
    } else {
        match decimal::sub_spec(
            decimal::div_spec(Some(current), Some(previous)),
            Some(decimal::dec_lit(1, 0)),
        ) {
            None => None,
            Some(x) => if decimal::dec_abs(x) > decimal::dec_lit(5, 1)@ {
                Some(x)
            } else {
                log_series(x)
            },
        }
    }
}

/// Log return `ln(current / previous)`: the simple return `x` when
/// `|x| > 0.5`, else the series `x - x^2/2 + x^3/3 - x^4/4`.  `None` unless
/// both prices are positive.
pub fn log_return(current: Dec, previous: Dec) -> (r: Option<Dec>)
    ensures
        r == log_return_spec(current, previous),
{
    let zero = Dec::zero();
    if previous.le(&zero) || current.le(&zero) {
        return None;
    }
    let x = match sub_opt(current.div(previous), Some(Dec::new(1, 0))) {
        None => return None,
        Some(x) => x,
    };
    if x.abs().gt(&Dec::new(5, 1)) {
        Some(x)
    } else {
        let x2 = x.mul(x);
        let x3 = mul_opt(x2, Some(x));
        let x4 = mul_opt(x3, Some(x));
        sub_opt(
            add_opt(
                sub_opt(Some(x), div_opt(x2, Some(Dec::new(2, 0)))),
                div_opt(x3, Some(Dec::new(3, 0))),
            ),
            div_opt(x4, Some(Dec::new(4, 0))),
        )
    }
}

pub open spec fn simple_return_pct_spec(current: Dec, previous: Dec) -> Option<Dec> {
    if previous@ == 0 {
        None
    } else {
        decimal::mul_spec(
            decimal::div_spec(decimal::sub_spec(Some(current), Some(previous)), Some(previous)),
            Some(decimal::dec_lit(100, 0)),
        )
    }
}

/// Percentage return `(current - previous) / previous * 100`; `None` when
/// `previous` is zero.
pub fn simple_return_pct(current: Dec, previous: Dec) -> (r: Option<Dec>)
    ensures
        r == simple_return_pct_spec(current, previous),
{
    if previous.is_zero() {
        return None;
    }
    mul_opt(div_opt(current.sub(previous), Some(previous)), Some(Dec::new(100, 0)))
}

pub open spec fn order_book_imbalance_spec(bid: Dec, ask: Dec) -> Option<Dec> {
    match decimal::add_spec(Some(bid), Some(ask)) {
        None => None,
        Some(total) => if total@ == 0 {
            None
        } else {
            decimal::div_spec(decimal::sub_spec(Some(bid), Some(ask)), Some(total))
        },
    }
}

/// Order book imbalance `(bid - ask) / (bid + ask)`; `None` when the total
/// quantity is zero.
pub fn order_book_imbalance(bid_qty: Dec, ask_qty: Dec) -> (r: Option<Dec>)
    ensures
        r == order_book_imbalance_spec(bid_qty, ask_qty),
{
    let total = match bid_qty.add(ask_qty) {
        None => return None,
        Some(t) => t,
    };
    if total.is_zero() {
        return None;
    }
    div_opt(bid_qty.sub(ask_qty), Some(total))
}

pub open spec fn realized_volatility_spec(rets: Seq<Dec>, annualization: Dec) -> Option<Dec> {
    if rets.len() < 2 {
        None
    } else {
        match decimal::div_spec(sum_spec(rets), Some(dec_of_u32(rets.len() as int))) {
            None => None,
            Some(mean) => match decimal::div_spec(
                sum_opt_spec(squared_deviations(rets, mean)),
                Some(dec_of_u32(rets.len() - 1)),
            ) {
                None => None,
                Some(var) => match decimal_sqrt_spec(var) {
                    None => None,
                    Some(sd) => match decimal_sqrt_spec(annualization) {
                        None => None,
                        Some(f) => decimal::mul_spec(Some(sd), Some(f)),
                    },
                },
            },
        }
    }
}

/// Realized volatility: the sample standard deviation of the rets times
/// the square root of the annualization factor.  `None` for fewer than two
/// rets.
pub fn realized_volatility(rets: &[Dec], annualization_factor: Dec) -> (r: Option<Dec>)
    ensures
        r == realized_volatility_spec(rets@, annualization_factor),
{
    if rets.len() < 2 {
        return None;
    }
    let mean = match div_opt(
        sum(rets),
        Some(Dec::from_u32(#[verifier::truncate] (rets.len() as u32))),
    ) {
        None => return None,
        Some(m) => m,
    };
    let variance = match div_opt(
        sum_squared_deviations(rets, mean),
        Some(Dec::from_u32(#[verifier::truncate] ((rets.len() - 1) as u32))),
    ) {
        None => return None,
        Some(v) => v,
    };
    let sd = match decimal_sqrt(variance) {
        None => return None,
        Some(s) => s,
    };
    let factor = match decimal_sqrt(annualization_factor) {
        None => return None,
        Some(f) => f,
    };
    sd.mul(factor)
}

} // verus!
