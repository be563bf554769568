//! Fixed-point decimal numbers.
//!
//! `Dec` holds the plain parts of a `rust_decimal::Decimal`: a signed
//! mantissa of at most 96 bits and a scale (number of fractional digits)
//! of at most 28.  Every arithmetic operation is carried out by the
//! `rust_decimal` crate; this module only converts to and from the parts.
//!
//! In specifications a `Dec` is viewed as an integer: its value counted in
//! units of `10^-28`.  Because every scale is at most 28 this view is exact,
//! so comparisons and exact sums can be stated over plain integers.
use vstd::prelude::*;
use rust_decimal::Decimal;

verus! {

/// Largest mantissa magnitude a decimal can hold (2^96 - 1).
pub const MAX_MANTISSA: i128 = 79228162514264337593543950335;

/// Largest number of fractional digits.
pub const MAX_SCALE: u32 = 28;

/// `10^n`.
pub open spec fn pow10(n: nat) -> int
    decreases n,
{
    if n == 0 {
        1
    } else {
        10 * pow10((n - 1) as nat)
    }
}

/// The view of the decimal one: `10^28` units of `10^-28`.
pub open spec fn unit() -> int {
    10000000000000000000000000000
}

pub proof fn lemma_pow10_positive(n: nat)
    ensures
        pow10(n) >= 1,
    decreases n,
{
    if n > 0 {
        lemma_pow10_positive((n - 1) as nat);
    }
}

pub proof fn lemma_pow10_28()
    ensures
        pow10(28) == unit(),
{
    reveal_with_fuel(pow10, 29);
}

/// A decimal number `mantissa * 10^-scale`.
#[derive(Clone, Copy, Debug)]
pub struct Dec {
    mantissa: i128,
    scale: u32,
}

impl Dec {
    #[verifier::type_invariant]
    spec fn well_formed(self) -> bool {
        -MAX_MANTISSA <= self.mantissa <= MAX_MANTISSA && self.scale <= MAX_SCALE
    }

    /// The mantissa.
    pub closed spec fn mant(self) -> int {
        self.mantissa as int
    }

    /// The scale (number of fractional digits).
    pub closed spec fn scl(self) -> nat {
        self.scale as nat
    }

    /// Builds `mantissa * 10^-scale`.
    pub fn new(mantissa: i64, scale: u32) -> (r: Dec)
        requires
            scale <= MAX_SCALE,
        ensures
            r == dec_lit(mantissa as int, scale as nat),
            r.mant() == mantissa,
            r.scl() == scale,
    {
        Dec { mantissa: mantissa as i128, scale }
    }

    /// Builds a decimal from its parts, or `None` when they are out of range.
    pub fn from_parts(mantissa: i128, scale: u32) -> (r: Option<Dec>)
        ensures
            r is Some <==> (-MAX_MANTISSA <= mantissa <= MAX_MANTISSA && scale <= MAX_SCALE),
            r matches Some(d) ==> d.mant() == mantissa && d.scl() == scale,
    {
        if -MAX_MANTISSA <= mantissa && mantissa <= MAX_MANTISSA && scale <= MAX_SCALE {
            Some(Dec { mantissa, scale })
        } else {
            None
        }
    }

    /// The whole number `n` (scale 0).
    pub fn from_i64(n: i64) -> (r: Dec)
        ensures
            r == dec_lit(n as int, 0),
            r.mant() == n,
            r.scl() == 0,
            r@ == n * unit(),
    {
        proof {
            lemma_pow10_28();
        }
        Dec { mantissa: n as i128, scale: 0 }
    }

    /// The whole number `n` (scale 0).
    pub fn from_u32(n: u32) -> (r: Dec)
        ensures
            r == dec_lit(n as int, 0),
            r.mant() == n,
            r.scl() == 0,
            r@ == n * unit(),
    {
        proof {
            lemma_pow10_28();
        }
        Dec { mantissa: n as i128, scale: 0 }
    }

    /// The whole number `n` (scale 0).
    pub fn from_usize(n: usize) -> (r: Dec)
        requires
            n <= u64::MAX,
        ensures
            r == dec_lit(n as int, 0),
            r.mant() == n,
            r.scl() == 0,
            r@ == n * unit(),
    {
        proof {
            lemma_pow10_28();
        }
        Dec { mantissa: n as i128, scale: 0 }
    }

    /// Zero.
    pub fn zero() -> (r: Dec)
        ensures
            r == dec_zero(),
            r.mant() == 0,
            r.scl() == 0,
            r@ == 0,
    {
        Dec { mantissa: 0, scale: 0 }
    }

    /// The mantissa.
    pub fn mantissa(&self) -> (r: i128)
        ensures
            r == self.mant(),
    {
        self.mantissa
    }

    /// The scale.
    pub fn scale(&self) -> (r: u32)
        ensures
            r == self.scl(),
    {
        self.scale
    }

    /// Whether the value is zero.
    pub fn is_zero(&self) -> (r: bool)
        ensures
            r == (self@ == 0),
    {
        proof {
            use_type_invariant(self);
            lemma_pow10_positive((28 - self.scale) as nat);
            lemma_mul_zero_iff(self.mantissa as int, pow10((28 - self.scale) as nat));
        }
        self.mantissa == 0
    }

    /// Absolute value (same scale).
    pub fn abs(&self) -> (r: Dec)
        ensures
            r == dec_abs_of(*self),
            r@ == (if self@ < 0 { -self@ } else { self@ }),
            r.scl() == self.scl(),
    {
        proof {
            use_type_invariant(self);
            lemma_pow10_positive((28 - self.scale) as nat);
            lemma_mul_sign(self.mantissa as int, pow10((28 - self.scale) as nat));
        }
        if self.mantissa < 0 {
            let r = Dec { mantissa: -self.mantissa, scale: self.scale };
            proof {
                lemma_mul_neg(self.mantissa as int, pow10((28 - self.scale) as nat));
            }
            r
        } else {
            *self
        }
    }

    /// Negation (same scale).
    pub fn neg(&self) -> (r: Dec)
        ensures
            r@ == -self@,
            r.scl() == self.scl(),
    {
        proof {
            use_type_invariant(self);
            lemma_mul_neg(self.mantissa as int, pow10((28 - self.scale) as nat));
        }
        Dec { mantissa: -self.mantissa, scale: self.scale }
    }
}

/// The decimal `m * 10^-s` (for `s <= 28` and `|m| < 2^96`).
pub closed spec fn dec_lit(m: int, s: nat) -> Dec {
    Dec { mantissa: m as i128, scale: s as u32 }
}

/// Zero at scale 0 (`Decimal::ZERO`).
pub open spec fn dec_zero() -> Dec {
    dec_lit(0, 0)
}

/// `|d|` at the scale of `d` (what `Decimal::abs` returns).
pub closed spec fn dec_abs_of(d: Dec) -> Dec {
    if d.mantissa < 0 {
        Dec { mantissa: (-d.mantissa) as i128, scale: d.scale }
    } else {
        d
    }
}

pub proof fn lemma_lit(m: int, s: nat)
    requires
        -MAX_MANTISSA <= m <= MAX_MANTISSA,
        s <= 28,
    ensures
        dec_lit(m, s).mant() == m,
        dec_lit(m, s).scl() == s,
        dec_lit(m, s)@ == m * pow10((28 - s) as nat),
{
}

impl View for Dec {
    type V = int;

    /// The value in units of `10^-28`.
    closed spec fn view(&self) -> int {
        self.mant() * pow10((28 - self.scl()) as nat)
    }
}

proof fn lemma_mul_zero_iff(a: int, b: int) by (nonlinear_arith)
    requires
        b >= 1,
    ensures
        (a * b == 0) == (a == 0),
        (a * b < 0) == (a < 0),
        (a * b > 0) == (a > 0),
{
}

proof fn lemma_mul_sign(a: int, b: int) by (nonlinear_arith)
    requires
        b >= 1,
    ensures
        (a * b < 0) == (a < 0),
{
}

proof fn lemma_mul_neg(a: int, b: int) by (nonlinear_arith)
    ensures
        (-a) * b == -(a * b),
{
}

pub open spec fn max_nat(a: nat, b: nat) -> nat {
    if a >= b {
        a
    } else {
        b
    }
}

/// Whether the value `v` (in units of `10^-28`) is representable at scale `s`
/// with a mantissa of at most 96 bits, assuming it is a multiple of `10^(28-s)`.
pub open spec fn fits_at_scale(v: int, s: nat) -> bool {
    -MAX_MANTISSA * pow10((28 - s) as nat) <= v <= MAX_MANTISSA * pow10((28 - s) as nat)
}

proof fn lemma_mul_ge_self(m: int, p: int) by (nonlinear_arith)
    requires
        m >= 0,
        p >= 1,
    ensures
        m <= m * p,
        -(m * p) <= -m,
{
}

/// A value of at most `MAX_MANTISSA` units fits at every scale.
pub proof fn lemma_fits_small(v: int, s: nat)
    requires
        -MAX_MANTISSA <= v <= MAX_MANTISSA,
    ensures
        fits_at_scale(v, s),
{
    lemma_pow10_positive((28 - s) as nat);
    lemma_mul_ge_self(MAX_MANTISSA as int, pow10((28 - s) as nat));
    lemma_mul_neg(MAX_MANTISSA as int, pow10((28 - s) as nat));
}

// ---------------------------------------------------------------------------
// Results of `rust_decimal` operations.
// ---------------------------------------------------------------------------

/// What `Decimal::checked_add` returns for the two decimals.
pub uninterp spec fn decimal_checked_add(a: Dec, b: Dec) -> Option<Dec>;

/// What `Decimal::checked_sub` returns for the two decimals.
pub uninterp spec fn decimal_checked_sub(a: Dec, b: Dec) -> Option<Dec>;

/// What `Decimal::checked_mul` returns for the two decimals.
pub uninterp spec fn decimal_checked_mul(a: Dec, b: Dec) -> Option<Dec>;

/// What `Decimal::checked_div` returns for the two decimals.
pub uninterp spec fn decimal_checked_div(a: Dec, b: Dec) -> Option<Dec>;

/// The text that `Decimal`'s `Display` writes for the decimal.
pub uninterp spec fn decimal_display(d: Dec) -> Seq<char>;

/// What `Decimal`'s `FromStr` makes of a text (`None` when it rejects it).
pub uninterp spec fn decimal_parse(s: Seq<char>) -> Option<Dec>;

/// Calls `Decimal::checked_add`.  The sum is exact (and so never `None`)
/// whenever the exact sum fits in 96 bits at the larger of the two scales:
/// `rust_decimal` aligns the scales and only rounds when the aligned sum
/// overflows 96 bits.  Otherwise the result is left to the name.
#[verifier::external_body]
fn checked_add_raw(a: Dec, b: Dec) -> (r: Option<Dec>)
    ensures
        r == decimal_checked_add(a, b),
        fits_at_scale(a@ + b@, max_nat(a.scl(), b.scl())) ==> (r is Some && r->0@ == a@ + b@),
{
    let x = Decimal::from_i128_with_scale(a.mantissa, a.scale);
    let y = Decimal::from_i128_with_scale(b.mantissa, b.scale);
    match x.checked_add(y) {
        Some(z) => Some(Dec { mantissa: z.mantissa(), scale: z.scale() }),
        None => None,
    }
}

/// Calls `Decimal::checked_sub`; exact under the same condition as addition.
#[verifier::external_body]
fn checked_sub_raw(a: Dec, b: Dec) -> (r: Option<Dec>)
    ensures
        r == decimal_checked_sub(a, b),
        fits_at_scale(a@ - b@, max_nat(a.scl(), b.scl())) ==> (r is Some && r->0@ == a@ - b@),
{
    let x = Decimal::from_i128_with_scale(a.mantissa, a.scale);
    let y = Decimal::from_i128_with_scale(b.mantissa, b.scale);
    match x.checked_sub(y) {
        Some(z) => Some(Dec { mantissa: z.mantissa(), scale: z.scale() }),
        None => None,
    }
}

/// Calls `Decimal::checked_mul`.  A zero operand gives `Decimal::ZERO`
/// (mantissa 0, scale 0).  Otherwise the product is exact when the two
/// scales add up to at most 28 and the product of the mantissas fits in 96
/// bits; beyond that `rust_decimal` rounds, and the result is left to the
/// name.
#[verifier::external_body]
fn checked_mul_raw(a: Dec, b: Dec) -> (r: Option<Dec>)
    ensures
        r == decimal_checked_mul(a, b),
        (a.mant() == 0 || b.mant() == 0) ==> r == Some(dec_zero()),
        (a.mant() != 0 && b.mant() != 0 && a.scl() + b.scl() <= 28 && -MAX_MANTISSA <= a.mant()
            * b.mant() <= MAX_MANTISSA) ==> (r is Some && r->0.mant() == a.mant() * b.mant()
            && r->0.scl() == a.scl() + b.scl()),
{
    let x = Decimal::from_i128_with_scale(a.mantissa, a.scale);
    let y = Decimal::from_i128_with_scale(b.mantissa, b.scale);
    match x.checked_mul(y) {
        Some(z) => Some(Dec { mantissa: z.mantissa(), scale: z.scale() }),
        None => None,
    }
}

/// Calls `Decimal::checked_div`, which returns `None` on a zero divisor and
/// otherwise only when the quotient overflows, which a quotient of magnitude
/// at most one never does.  A zero dividend over a non-zero divisor gives
/// `Decimal::ZERO`.  Any other (rounded) quotient is left to the name.
#[verifier::external_body]
fn checked_div_raw(a: Dec, b: Dec) -> (r: Option<Dec>)
    ensures
        r == decimal_checked_div(a, b),
        b.mant() == 0 ==> r is None,
        (b.mant() != 0 && a.mant() == 0) ==> r == Some(dec_zero()),
        (b.mant() != 0 && dec_abs(a) <= dec_abs(b)) ==> r is Some,
{
    let x = Decimal::from_i128_with_scale(a.mantissa, a.scale);
    let y = Decimal::from_i128_with_scale(b.mantissa, b.scale);
    match x.checked_div(y) {
        Some(z) => Some(Dec { mantissa: z.mantissa(), scale: z.scale() }),
        None => None,
    }
}

/// Calls `Decimal`'s `<`, which compares the numeric values.
#[verifier::external_body]
fn lt_raw(a: Dec, b: Dec) -> (r: bool)
    ensures
        r == (a@ < b@),
{
    Decimal::from_i128_with_scale(a.mantissa, a.scale) < Decimal::from_i128_with_scale(
        b.mantissa,
        b.scale,
    )
}

/// Calls `Decimal`'s `==`, which compares the numeric values.
#[verifier::external_body]
fn eq_raw(a: Dec, b: Dec) -> (r: bool)
    ensures
        r == (a@ == b@),
{
    Decimal::from_i128_with_scale(a.mantissa, a.scale) == Decimal::from_i128_with_scale(
        b.mantissa,
        b.scale,
    )
}

/// Calls `Decimal::to_string` (its `Display` text).
#[verifier::external_body]
fn to_string_raw(a: Dec) -> (r: String)
    ensures
        r@ == decimal_display(a),
{
    Decimal::from_i128_with_scale(a.mantissa, a.scale).to_string()
}

/// Calls `Decimal`'s `FromStr` (`str::parse`); a rejected text gives `None`.
#[verifier::external_body]
fn parse_raw(s: &str) -> (r: Option<Dec>)
    ensures
        r == decimal_parse(s@),
{
    match s.parse::<Decimal>() {
        Ok(z) => Some(Dec { mantissa: z.mantissa(), scale: z.scale() }),
        Err(_) => None,
    }
}

impl Dec {
    /// Parses decimal text as `rust_decimal` does.
    pub fn parse(s: &str) -> (r: Option<Dec>)
        ensures
            r == decimal_parse(s@),
    {
        parse_raw(s)
    }
}

// ---------------------------------------------------------------------------
// Operations lifted to `Option`: `None` stands for an overflow, where the
// `Decimal` operators panic.
// ---------------------------------------------------------------------------

pub open spec fn add_spec(a: Option<Dec>, b: Option<Dec>) -> Option<Dec> {
    match (a, b) {
        (Some(x), Some(y)) => decimal_checked_add(x, y),
        _ => None,
    }
}

pub open spec fn sub_spec(a: Option<Dec>, b: Option<Dec>) -> Option<Dec> {
    match (a, b) {
        (Some(x), Some(y)) => decimal_checked_sub(x, y),
        _ => None,
    }
}

pub open spec fn mul_spec(a: Option<Dec>, b: Option<Dec>) -> Option<Dec> {
    match (a, b) {
        (Some(x), Some(y)) => decimal_checked_mul(x, y),
        _ => None,
    }
}

pub open spec fn div_spec(a: Option<Dec>, b: Option<Dec>) -> Option<Dec> {
    match (a, b) {
        (Some(x), Some(y)) => decimal_checked_div(x, y),
        _ => None,
    }
}

impl Dec {
    /// `self + other`; `None` on overflow.
    pub fn add(self, other: Dec) -> (r: Option<Dec>)
        ensures
            r == decimal_checked_add(self, other),
            fits_at_scale(self@ + other@, max_nat(self.scl(), other.scl())) ==> (r is Some
                && r->0@ == self@ + other@),
    {
        checked_add_raw(self, other)
    }

    /// `self - other`; `None` on overflow.
    pub fn sub(self, other: Dec) -> (r: Option<Dec>)
        ensures
            r == decimal_checked_sub(self, other),
            fits_at_scale(self@ - other@, max_nat(self.scl(), other.scl())) ==> (r is Some
                && r->0@ == self@ - other@),
    {
        checked_sub_raw(self, other)
    }

    /// `self * other`; `None` on overflow.
    pub fn mul(self, other: Dec) -> (r: Option<Dec>)
        ensures
            r == decimal_checked_mul(self, other),
            (self.mant() == 0 || other.mant() == 0) ==> r == Some(dec_zero()),
            (self.mant() != 0 && other.mant() != 0 && self.scl() + other.scl() <= 28
                && -MAX_MANTISSA <= self.mant() * other.mant() <= MAX_MANTISSA) ==> (r is Some
                && r->0.mant() == self.mant() * other.mant() && r->0.scl() == self.scl()
                + other.scl()),
    {
        checked_mul_raw(self, other)
    }

    /// `self / other`; `None` on overflow or a zero divisor.
    pub fn div(self, other: Dec) -> (r: Option<Dec>)
        ensures
            r == decimal_checked_div(self, other),
            other@ == 0 ==> r is None,
            (other@ != 0 && dec_abs(self) <= dec_abs(other)) ==> r is Some,
            (other@ != 0 && self.mant() == 0) ==> r == Some(dec_zero()),
    {
        proof {
            use_type_invariant(&other);
            lemma_pow10_positive((28 - other.scale) as nat);
            lemma_mul_zero_iff(other.mantissa as int, pow10((28 - other.scale) as nat));
        }
        checked_div_raw(self, other)
    }

    /// `self < other` (by value).
    pub fn lt(&self, other: &Dec) -> (r: bool)
        ensures
            r == (self@ < other@),
    {
        lt_raw(*self, *other)
    }

    /// `self <= other` (by value).
    pub fn le(&self, other: &Dec) -> (r: bool)
        ensures
            r == (self@ <= other@),
    {
        !lt_raw(*other, *self)
    }

    /// `self > other` (by value).
    pub fn gt(&self, other: &Dec) -> (r: bool)
        ensures
            r == (self@ > other@),
    {
        lt_raw(*other, *self)
    }

    /// `self >= other` (by value).
    pub fn ge(&self, other: &Dec) -> (r: bool)
        ensures
            r == (self@ >= other@),
    {
        !lt_raw(*self, *other)
    }

    /// Equality by value (`1.0 == 1`).
    pub fn eq_value(&self, other: &Dec) -> (r: bool)
        ensures
            r == (self@ == other@),
    {
        eq_raw(*self, *other)
    }

    /// `Decimal::max`: `other` when `self < other`, else `self`.
    pub fn max(self, other: Dec) -> (r: Dec)
        ensures
            r == (if self@ < other@ { other } else { self }),
    {
        if lt_raw(self, other) {
            other
        } else {
            self
        }
    }

    /// `Decimal::min`: `other` when `self > other`, else `self`.
    pub fn min(self, other: Dec) -> (r: Dec)
        ensures
            r == (if self@ > other@ { other } else { self }),
    {
        if lt_raw(other, self) {
            other
        } else {
            self
        }
    }

    /// The `Display` text of the decimal.
    pub fn to_string(&self) -> (r: String)
        ensures
            r@ == decimal_display(*self),
    {
        to_string_raw(*self)
    }
}

pub open spec fn dec_max(a: Dec, b: Dec) -> Dec {
    if a@ < b@ {
        b
    } else {
        a
    }
}

pub open spec fn dec_min(a: Dec, b: Dec) -> Dec {
    if a@ > b@ {
        b
    } else {
        a
    }
}

pub open spec fn dec_abs(a: Dec) -> int {
    if a@ < 0 {
        -a@
    } else {
        a@
    }
}

/// `a + b` on optional operands.
pub fn add_opt(a: Option<Dec>, b: Option<Dec>) -> (r: Option<Dec>)
    ensures
        r == add_spec(a, b),
{
    match (a, b) {
        (Some(x), Some(y)) => x.add(y),
        _ => None,
    }
}

/// `a - b` on optional operands.
pub fn sub_opt(a: Option<Dec>, b: Option<Dec>) -> (r: Option<Dec>)
    ensures
        r == sub_spec(a, b),
{
    match (a, b) {
        (Some(x), Some(y)) => x.sub(y),
        _ => None,
    }
}

/// `a * b` on optional operands.
pub fn mul_opt(a: Option<Dec>, b: Option<Dec>) -> (r: Option<Dec>)
    ensures
        r == mul_spec(a, b),
{
    match (a, b) {
        (Some(x), Some(y)) => x.mul(y),
        _ => None,
    }
}

/// `a / b` on optional operands.
pub fn div_opt(a: Option<Dec>, b: Option<Dec>) -> (r: Option<Dec>)
    ensures
        r == div_spec(a, b),
{
    match (a, b) {
        (Some(x), Some(y)) => x.div(y),
        _ => None,
    }
}

impl PartialEq for Dec {
    fn eq(&self, other: &Dec) -> (r: bool) {
        eq_raw(*self, *other)
    }
}

impl vstd::std_specs::cmp::PartialEqSpecImpl for Dec {
    open spec fn obeys_eq_spec() -> bool {
        true
    }

    open spec fn eq_spec(&self, other: &Dec) -> bool {
        self@ == other@
    }
}

} // verus!
