//! Decimal numbers as a 96-bit mantissa and a power-of-ten scale, the representation
//! that `rust_decimal` uses. Arithmetic is done by `rust_decimal`.

use vstd::prelude::*;

verus! {

/// Ten to the power `n`.
pub open spec fn pow10(n: nat) -> int
    decreases n,
{
    if n == 0 {
        1
    } else {
        10 * pow10((n - 1) as nat)
    }
}

/// The largest magnitude of a mantissa: 2^96 - 1.
pub open spec fn max_mantissa() -> int {
    0xFFFF_FFFF_FFFF_FFFF_FFFF_FFFFint
}

/// The largest scale: 28 digits after the point.
pub open spec fn max_scale() -> nat {
    28
}

/// A decimal number `mantissa / 10^scale`.
#[derive(Clone, Copy, Debug)]
pub struct Decimal {
    mantissa: i128,
    scale: u32,
}

impl Decimal {
    #[verifier::type_invariant]
    spec fn in_range(self) -> bool {
        &&& -max_mantissa() <= self.mantissa <= max_mantissa()
        &&& self.scale <= max_scale()
    }

    /// The mantissa as an integer (every decimal that exists keeps its mantissa within
    /// `max_mantissa()`; a ghost value outside that range is read as the nearest bound).
    pub closed spec fn mantissa_of(self) -> int {
        if self.mantissa > max_mantissa() {
            max_mantissa()
        } else if self.mantissa < -max_mantissa() {
            -max_mantissa()
        } else {
            self.mantissa as int
        }
    }

    /// The scale as a natural number, at most `max_scale()`.
    pub closed spec fn scale_of(self) -> nat {
        if self.scale > max_scale() {
            max_scale()
        } else {
            self.scale as nat
        }
    }

    /// The decimal with the given mantissa and scale, as a spec value.
    pub closed spec fn from_parts(mantissa: int, scale: nat) -> Decimal {
        Decimal { mantissa: mantissa as i128, scale: scale as u32 }
    }

    /// `num / 10^scale`.
    pub fn new(num: i64, scale: u32) -> (d: Decimal)
        requires
            scale <= max_scale(),
        ensures
            d.mantissa_of() == num,
            d.scale_of() == scale,
            d == Decimal::from_parts(num as int, scale as nat),
    {
        Decimal { mantissa: num as i128, scale }
    }

    /// Zero (mantissa 0, scale 0).
    pub fn zero() -> (d: Decimal)
        ensures
            d.mantissa_of() == 0,
            d.scale_of() == 0,
            d == Decimal::from_parts(0, 0),
    {
        Decimal { mantissa: 0, scale: 0 }
    }

    /// One (mantissa 1, scale 0).
    pub fn one() -> (d: Decimal)
        ensures
            d.mantissa_of() == 1,
            d.scale_of() == 0,
            d == Decimal::from_parts(1, 0),
    {
        Decimal { mantissa: 1, scale: 0 }
    }

    /// Two (mantissa 2, scale 0).
    pub fn two() -> (d: Decimal)
        ensures
            d.mantissa_of() == 2,
            d.scale_of() == 0,
            d == Decimal::from_parts(2, 0),
    {
        Decimal { mantissa: 2, scale: 0 }
    }

    /// The mantissa.
    pub fn mantissa(&self) -> (m: i128)
        ensures
            m == self.mantissa_of(),
            -max_mantissa() <= m <= max_mantissa(),
    {
        proof {
            use_type_invariant(self);
        }
        self.mantissa
    }

    /// The scale.
    pub fn scale(&self) -> (s: u32)
        ensures
            s == self.scale_of(),
            s <= max_scale(),
    {
        proof {
            use_type_invariant(self);
        }
        self.scale
    }

    /// Whether the number is zero.
    pub fn is_zero(&self) -> (b: bool)
        ensures
            b == (self.mantissa_of() == 0),
    {
        self.mantissa == 0
    }
}

impl Decimal {
    /// Parses a decimal from its text, as `rust_decimal`'s `FromStr` does (digits beyond
    /// what fits are rounded, and scientific notation is read); `None` where it refuses it.
    pub fn from_str(text: &str) -> (r: Option<Decimal>)
        ensures
            r == decimal_from_str(text@),
    {
        rd_from_str(text)
    }

    /// `self + other`, `None` where `rust_decimal` reports overflow.
    pub fn checked_add(self, other: Decimal) -> (r: Option<Decimal>)
        ensures
            r == decimal_checked_add(self, other),
    {
        rd_checked_add(self, other)
    }

    /// `self - other`, `None` where `rust_decimal` reports overflow.
    pub fn checked_sub(self, other: Decimal) -> (r: Option<Decimal>)
        ensures
            r == decimal_checked_sub(self, other),
    {
        rd_checked_sub(self, other)
    }

    /// `self * other`, `None` where `rust_decimal` reports overflow.
    pub fn checked_mul(self, other: Decimal) -> (r: Option<Decimal>)
        ensures
            r == decimal_checked_mul(self, other),
    {
        rd_checked_mul(self, other)
    }

    /// `self / other`, `None` on division by zero or overflow.
    pub fn checked_div(self, other: Decimal) -> (r: Option<Decimal>)
        ensures
            r == decimal_checked_div(self, other),
            other.mantissa_of() == 0 ==> r is None,
    {
        rd_checked_div(self, other)
    }

    /// `self` raised to the integer power `exp`.
    pub fn checked_powi(self, exp: i64) -> (r: Option<Decimal>)
        ensures
            r == decimal_checked_powi(self, exp),
    {
        rd_checked_powi(self, exp)
    }

    /// The natural logarithm, `None` for a number that is not positive.
    pub fn checked_ln(self) -> (r: Option<Decimal>)
        ensures
            r == decimal_checked_ln(self),
            self.mantissa_of() <= 0 ==> r is None,
    {
        rd_checked_ln(self)
    }
}

/// What `rust_decimal`'s `Decimal::from_str` returns for a text (`None` for an error).
pub uninterp spec fn decimal_from_str(text: Seq<char>) -> Option<Decimal>;

/// What `rust_decimal`'s `Decimal::checked_add` returns.
pub uninterp spec fn decimal_checked_add(a: Decimal, b: Decimal) -> Option<Decimal>;

/// What `rust_decimal`'s `Decimal::checked_sub` returns.
pub uninterp spec fn decimal_checked_sub(a: Decimal, b: Decimal) -> Option<Decimal>;

/// What `rust_decimal`'s `Decimal::checked_mul` returns.
pub uninterp spec fn decimal_checked_mul(a: Decimal, b: Decimal) -> Option<Decimal>;

/// What `rust_decimal`'s `Decimal::checked_div` returns.
pub uninterp spec fn decimal_checked_div(a: Decimal, b: Decimal) -> Option<Decimal>;

/// What `rust_decimal`'s `MathematicalOps::checked_powi` returns.
pub uninterp spec fn decimal_checked_powi(a: Decimal, exp: i64) -> Option<Decimal>;

/// What `rust_decimal`'s `MathematicalOps::checked_ln` returns.
pub uninterp spec fn decimal_checked_ln(a: Decimal) -> Option<Decimal>;

/// Calls `<rust_decimal::Decimal as FromStr>::from_str`; the result is named by
/// `decimal_from_str` and carried back as mantissa and scale.
#[verifier::external_body]
fn rd_from_str(text: &str) -> (r: Option<Decimal>)
    ensures
        r == decimal_from_str(text@),
{
    match <rust_decimal::Decimal as std::str::FromStr>::from_str(text) {
        Ok(x) => Some(Decimal { mantissa: x.mantissa(), scale: x.scale() }),
        Err(_) => None,
    }
}

/// Calls `rust_decimal::Decimal::checked_add`; the result is named by `decimal_checked_add`.
#[verifier::external_body]
fn rd_checked_add(a: Decimal, b: Decimal) -> (r: Option<Decimal>)
    ensures
        r == decimal_checked_add(a, b),
{
    let x = rust_decimal::Decimal::from_i128_with_scale(a.mantissa, a.scale);
    let y = rust_decimal::Decimal::from_i128_with_scale(b.mantissa, b.scale);
    match x.checked_add(y) {
        Some(z) => Some(Decimal { mantissa: z.mantissa(), scale: z.scale() }),
        None => None,
    }
}

/// Calls `rust_decimal::Decimal::checked_sub`; the result is named by `decimal_checked_sub`.
#[verifier::external_body]
fn rd_checked_sub(a: Decimal, b: Decimal) -> (r: Option<Decimal>)
    ensures
        r == decimal_checked_sub(a, b),
{
    let x = rust_decimal::Decimal::from_i128_with_scale(a.mantissa, a.scale);
    let y = rust_decimal::Decimal::from_i128_with_scale(b.mantissa, b.scale);
    match x.checked_sub(y) {
        Some(z) => Some(Decimal { mantissa: z.mantissa(), scale: z.scale() }),
        None => None,
    }
}

/// Calls `rust_decimal::Decimal::checked_mul`; the result is named by `decimal_checked_mul`.
#[verifier::external_body]
fn rd_checked_mul(a: Decimal, b: Decimal) -> (r: Option<Decimal>)
    ensures
        r == decimal_checked_mul(a, b),
{
    let x = rust_decimal::Decimal::from_i128_with_scale(a.mantissa, a.scale);
    let y = rust_decimal::Decimal::from_i128_with_scale(b.mantissa, b.scale);
    match x.checked_mul(y) {
        Some(z) => Some(Decimal { mantissa: z.mantissa(), scale: z.scale() }),
        None => None,
    }
}

/// Calls `rust_decimal::Decimal::checked_div`; the result is named by `decimal_checked_div`.
/// The source returns `None` when the divisor is zero (`div_impl` answers `DivByZero`).
#[verifier::external_body]
fn rd_checked_div(a: Decimal, b: Decimal) -> (r: Option<Decimal>)
    ensures
        r == decimal_checked_div(a, b),
        b.mantissa_of() == 0 ==> r is None,
{
    let x = rust_decimal::Decimal::from_i128_with_scale(a.mantissa, a.scale);
    let y = rust_decimal::Decimal::from_i128_with_scale(b.mantissa, b.scale);
    match x.checked_div(y) {
        Some(z) => Some(Decimal { mantissa: z.mantissa(), scale: z.scale() }),
        None => None,
    }
}

/// Calls `rust_decimal::MathematicalOps::checked_powi`; the result is named by
/// `decimal_checked_powi`.
#[verifier::external_body]
fn rd_checked_powi(a: Decimal, exp: i64) -> (r: Option<Decimal>)
    ensures
        r == decimal_checked_powi(a, exp),
{
    let x = rust_decimal::Decimal::from_i128_with_scale(a.mantissa, a.scale);
    match rust_decimal::MathematicalOps::checked_powi(&x, exp) {
        Some(z) => Some(Decimal { mantissa: z.mantissa(), scale: z.scale() }),
        None => None,
    }
}

/// Calls `rust_decimal::MathematicalOps::checked_ln`; the result is named by
/// `decimal_checked_ln`. The source (`ln_wide`) returns `None` for a negative number or zero.
#[verifier::external_body]
fn rd_checked_ln(a: Decimal) -> (r: Option<Decimal>)
    ensures
        r == decimal_checked_ln(a),
        a.mantissa_of() <= 0 ==> r is None,
{
    let x = rust_decimal::Decimal::from_i128_with_scale(a.mantissa, a.scale);
    match rust_decimal::MathematicalOps::checked_ln(&x) {
        Some(z) => Some(Decimal { mantissa: z.mantissa(), scale: z.scale() }),
        None => None,
    }
}

/// Calls `PartialEq::eq` of `rust_decimal::Decimal`, which compares the numbers the two
/// decimals denote (`cmp_impl` rescales to a common scale before comparing).
#[verifier::external_body]
pub(crate) fn rd_eq(a: Decimal, b: Decimal) -> (r: bool)
    ensures
        r == same_value(a, b),
{
    let x = rust_decimal::Decimal::from_i128_with_scale(a.mantissa, a.scale);
    let y = rust_decimal::Decimal::from_i128_with_scale(b.mantissa, b.scale);
    x == y
}

/// Calls `PartialOrd::lt` of `rust_decimal::Decimal`, which orders the numbers the two
/// decimals denote.
#[verifier::external_body]
pub(crate) fn rd_lt(a: Decimal, b: Decimal) -> (r: bool)
    ensures
        r == value_lt(a, b),
{
    let x = rust_decimal::Decimal::from_i128_with_scale(a.mantissa, a.scale);
    let y = rust_decimal::Decimal::from_i128_with_scale(b.mantissa, b.scale);
    x < y
}

impl PartialEq for Decimal {
    fn eq(&self, other: &Decimal) -> (r: bool) {
        rd_eq(*self, *other)
    }
}

impl vstd::std_specs::cmp::PartialEqSpecImpl for Decimal {
    open spec fn obeys_eq_spec() -> bool {
        true
    }

    open spec fn eq_spec(&self, other: &Decimal) -> bool {
        same_value(*self, *other)
    }
}

/// The number a decimal denotes, multiplied by `10^max_scale()`: an exact integer.
pub open spec fn value_key(d: Decimal) -> int {
    d.mantissa_of() * pow10((max_scale() - d.scale_of()) as nat)
}

/// The parts of a decimal are within the bounds of its representation.
pub proof fn lemma_parts_in_range(d: Decimal)
    ensures
        -max_mantissa() <= d.mantissa_of() <= max_mantissa(),
        d.scale_of() <= max_scale(),
{
}

/// Powers of ten are positive and add their exponents when multiplied.
pub proof fn lemma_pow10(a: nat, b: nat)
    ensures
        pow10(a) > 0,
        pow10(a + b) == pow10(a) * pow10(b),
    decreases a,
{
    if a > 0 {
        lemma_pow10((a - 1) as nat, b);
        assert(pow10(a + b) == 10 * pow10((a - 1 + b) as nat));
        assert(10 * (pow10((a - 1) as nat) * pow10(b)) == (10 * pow10((a - 1) as nat)) * pow10(b))
            by (nonlinear_arith);
    }
}

proof fn lemma_scale_both_sides(x: int, y: int, c: int)
    by (nonlinear_arith)
    requires
        c > 0,
    ensures
        x < y <==> x * c < y * c,
        x == y <==> x * c == y * c,
{
}

proof fn lemma_regroup(m: int, p: int, q: int, r: int)
    by (nonlinear_arith)
    ensures
        (m * p) * (q * r) == (m * q) * (p * r),
{
}

/// The numeric order and equality of decimals are those of their `value_key`s.
pub proof fn lemma_value_key(a: Decimal, b: Decimal)
    ensures
        value_lt(a, b) <==> value_key(a) < value_key(b),
        same_value(a, b) <==> value_key(a) == value_key(b),
{
    let sa = a.scale_of();
    let sb = b.scale_of();
    let pa = pow10((max_scale() - sa) as nat);
    let pb = pow10((max_scale() - sb) as nat);
    lemma_pow10((max_scale() - sa) as nat, sa);
    lemma_pow10((max_scale() - sb) as nat, sb);
    lemma_pow10((max_scale() - sa) as nat, (max_scale() - sb) as nat);
    lemma_pow10(max_scale(), 0);
    assert(((max_scale() - sa) as nat + sa) as nat == max_scale());
    assert(((max_scale() - sb) as nat + sb) as nat == max_scale());
    let c = pa * pb;
    assert(c > 0) by (nonlinear_arith)
        requires
            pa > 0,
            pb > 0,
            c == pa * pb,
    ;
    lemma_regroup(a.mantissa_of(), pow10(sb), pa, pb);
    lemma_regroup(b.mantissa_of(), pow10(sa), pb, pa);
    assert(pow10(sb) * pb == pow10(max_scale()));
    assert(pow10(sa) * pa == pow10(max_scale()));
    assert(pb * pa == c) by (nonlinear_arith)
        requires
            c == pa * pb,
    ;
    lemma_scale_both_sides(
        a.mantissa_of() * pow10(sb),
        b.mantissa_of() * pow10(sa),
        c,
    );
    lemma_scale_both_sides(value_key(a), value_key(b), pow10(max_scale()));
    assert(value_key(a) * pow10(max_scale()) == (a.mantissa_of() * pow10(sb)) * c) by (nonlinear_arith)
        requires
            value_key(a) == a.mantissa_of() * pa,
            (a.mantissa_of() * pow10(sb)) * (pa * pb) == (a.mantissa_of() * pa) * (pow10(sb) * pb),
            pow10(sb) * pb == pow10(max_scale()),
            c == pa * pb,
    ;
    assert(value_key(b) * pow10(max_scale()) == (b.mantissa_of() * pow10(sa)) * c) by (nonlinear_arith)
        requires
            value_key(b) == b.mantissa_of() * pb,
            (b.mantissa_of() * pow10(sa)) * (pb * pa) == (b.mantissa_of() * pb) * (pow10(sa) * pa),
            pow10(sa) * pa == pow10(max_scale()),
            c == pb * pa,
    ;
}

/// Denoting the same number is an equivalence, and the numeric order is a strict total
/// order on the numbers denoted.
pub proof fn lemma_value_order(a: Decimal, b: Decimal, c: Decimal)
    ensures
        same_value(a, a),
        same_value(a, b) ==> same_value(b, a),
        same_value(a, b) && same_value(b, c) ==> same_value(a, c),
        !value_lt(a, a),
        value_lt(a, b) ==> !value_lt(b, a) && !same_value(a, b),
        value_lt(a, b) && value_lt(b, c) ==> value_lt(a, c),
        value_lt(a, b) || same_value(a, b) || value_lt(b, a),
{
    lemma_value_key(a, a);
    lemma_value_key(a, b);
    lemma_value_key(b, a);
    lemma_value_key(b, c);
    lemma_value_key(a, c);
}

/// Whether `a` and `b` denote the same number.
pub open spec fn same_value(a: Decimal, b: Decimal) -> bool {
    a.mantissa_of() * pow10(b.scale_of()) == b.mantissa_of() * pow10(a.scale_of())
}

/// Whether `a` denotes a smaller number than `b`.
pub open spec fn value_lt(a: Decimal, b: Decimal) -> bool {
    a.mantissa_of() * pow10(b.scale_of()) < b.mantissa_of() * pow10(a.scale_of())
}

} // verus!
