//! Fixed-point decimal numbers as plain values (a signed mantissa and a
//! decimal scale), with their arithmetic carried out by `rust_decimal`.
//!
//! A `Dec` stands for `mantissa / 10^scale`. Its model is the pair
//! `(mantissa, scale)`. Comparisons are exact and stated over the numeric
//! value; sums, differences, products and quotients are what `rust_decimal`
//! computes, named by uninterpreted functions of the operand models. Where
//! `rust_decimal`'s operator would panic (overflow, division by zero), the
//! checked operation yields `None`.

use vstd::prelude::*;

verus! {

/// `10^n`.
pub open spec fn pow10(n: nat) -> int
    decreases n,
{
    if n == 0 {
        1
    } else {
        10 * pow10((n - 1) as nat)
    }
}

/// Largest mantissa magnitude a decimal can hold (96 bits).
pub open spec fn max_mantissa() -> int {
    79228162514264337593543950335
}

/// Largest scale a decimal can hold.
pub open spec fn max_scale() -> nat {
    28
}

/// The numeric value of model `a` is below that of model `b`.
pub open spec fn model_lt(a: (int, nat), b: (int, nat)) -> bool {
    a.0 * pow10(b.1) < b.0 * pow10(a.1)
}

/// The numeric value of model `a` is at most that of model `b`.
pub open spec fn model_le(a: (int, nat), b: (int, nat)) -> bool {
    a.0 * pow10(b.1) <= b.0 * pow10(a.1)
}

/// The model of an optional decimal.
pub open spec fn opt_model(o: Option<Dec>) -> Option<(int, nat)> {
    match o {
        Some(d) => Some(d@),
        None => None,
    }
}

/// The error of a computation in which a decimal operation overflowed (or
/// divided by zero), where `rust_decimal`'s operator would panic.
#[derive(Clone, Copy, Debug, PartialEq, Eq)]
pub struct ArithmeticOverflow;

/// The decimal whose model is `m` (meaningful for models in range).
pub closed spec fn from_model(m: (int, nat)) -> Dec {
    Dec { mantissa: m.0 as i128, scale: m.1 as u32 }
}

/// Lifts an optional model back to an optional decimal.
pub open spec fn lift(o: Option<(int, nat)>) -> Option<Dec> {
    match o {
        Some(m) => Some(from_model(m)),
        None => None,
    }
}

/// `a + b` as `rust_decimal` computes it; `None` where it panics.
pub open spec fn spec_add(a: Dec, b: Dec) -> Option<Dec> {
    lift(decimal_sum(a@, b@))
}

/// `a - b` as `rust_decimal` computes it; `None` where it panics.
pub open spec fn spec_sub(a: Dec, b: Dec) -> Option<Dec> {
    lift(decimal_difference(a@, b@))
}

/// `a * b` as `rust_decimal` computes it; `None` where it panics.
pub open spec fn spec_mul(a: Dec, b: Dec) -> Option<Dec> {
    lift(decimal_product(a@, b@))
}

/// `a / b` as `rust_decimal` computes it; `None` where it panics.
pub open spec fn spec_div(a: Dec, b: Dec) -> Option<Dec> {
    lift(decimal_quotient(a@, b@))
}

/// `spec_add` of optional operands; `None` when either is `None`.
pub open spec fn o_add(a: Option<Dec>, b: Option<Dec>) -> Option<Dec> {
    match (a, b) {
        (Some(x), Some(y)) => spec_add(x, y),
        _ => None,
    }
}

/// `spec_sub` of optional operands; `None` when either is `None`.
pub open spec fn o_sub(a: Option<Dec>, b: Option<Dec>) -> Option<Dec> {
    match (a, b) {
        (Some(x), Some(y)) => spec_sub(x, y),
        _ => None,
    }
}

/// `spec_mul` of optional operands; `None` when either is `None`.
pub open spec fn o_mul(a: Option<Dec>, b: Option<Dec>) -> Option<Dec> {
    match (a, b) {
        (Some(x), Some(y)) => spec_mul(x, y),
        _ => None,
    }
}

/// `spec_div` of optional operands; `None` when either is `None`.
pub open spec fn o_div(a: Option<Dec>, b: Option<Dec>) -> Option<Dec> {
    match (a, b) {
        (Some(x), Some(y)) => spec_div(x, y),
        _ => None,
    }
}

/// The smaller of two decimals, the first where they are numerically equal.
pub open spec fn spec_min(a: Dec, b: Dec) -> Dec {
    if model_lt(b@, a@) {
        b
    } else {
        a
    }
}

/// The decimal with mantissa `m` and scale `s`.
pub open spec fn dec_lit(m: int, s: nat) -> Dec {
    from_model((m, s))
}

/// What `rust_decimal`'s `+` gives for the two operands, or `None` where it
/// panics because the sum overflows.
pub uninterp spec fn decimal_sum(a: (int, nat), b: (int, nat)) -> Option<(int, nat)>;

/// What `rust_decimal`'s `-` gives for the two operands, or `None` where it
/// panics because the difference overflows.
pub uninterp spec fn decimal_difference(a: (int, nat), b: (int, nat)) -> Option<(int, nat)>;

/// What `rust_decimal`'s `*` gives for the two operands, or `None` where it
/// panics because the product overflows.
pub uninterp spec fn decimal_product(a: (int, nat), b: (int, nat)) -> Option<(int, nat)>;

/// What `rust_decimal`'s `/` gives for the two operands, or `None` where it
/// panics (division by zero or overflow).
pub uninterp spec fn decimal_quotient(a: (int, nat), b: (int, nat)) -> Option<(int, nat)>;

/// What `rust_decimal`'s `FromStr` gives for the text, or `None` where it
/// returns an error.
pub uninterp spec fn decimal_parse(s: Seq<char>) -> Option<(int, nat)>;

/// A decimal number `mantissa / 10^scale`.
#[derive(Clone, Copy, Debug)]
pub struct Dec {
    mantissa: i128,
    scale: u32,
}

impl View for Dec {
    type V = (int, nat);

    closed spec fn view(&self) -> (int, nat) {
        (self.mantissa as int, self.scale as nat)
    }
}

impl Dec {
    /// A decimal's mantissa fits in 96 bits and its scale is at most 28.
    #[verifier::type_invariant]
    spec fn inv(self) -> bool {
        &&& -max_mantissa() <= self.mantissa <= max_mantissa()
        &&& self.scale <= max_scale()
    }

    /// `num / 10^scale`.
    pub fn new(num: i64, scale: u32) -> (r: Dec)
        requires
            scale <= 28,
        ensures
            r@ == (num as int, scale as nat),
            r == dec_lit(num as int, scale as nat),
    {
        Dec { mantissa: num as i128, scale }
    }

    /// `num / 10^scale`, or `None` where the scale exceeds 28 or the
    /// mantissa does not fit in 96 bits.
    pub fn from_i128_with_scale(num: i128, scale: u32) -> (r: Option<Dec>)
        ensures
            r is Some <==> (scale <= 28 && -max_mantissa() <= num <= max_mantissa()),
            r is Some ==> r->0@ == (num as int, scale as nat),
    {
        if scale > 28 || num > 79228162514264337593543950335i128
            || num < -79228162514264337593543950335i128 {
            None
        } else {
            Some(Dec { mantissa: num, scale })
        }
    }

    /// Zero.
    pub fn zero() -> (r: Dec)
        ensures
            r@ == (0int, 0nat),
            r == dec_lit(0, 0),
    {
        Dec { mantissa: 0, scale: 0 }
    }

    /// One.
    pub fn one() -> (r: Dec)
        ensures
            r@ == (1int, 0nat),
            r == dec_lit(1, 0),
    {
        Dec { mantissa: 1, scale: 0 }
    }

    /// Two.
    pub fn two() -> (r: Dec)
        ensures
            r@ == (2int, 0nat),
            r == dec_lit(2, 0),
    {
        Dec { mantissa: 2, scale: 0 }
    }

    /// The signed mantissa.
    pub fn mantissa(&self) -> (r: i128)
        ensures
            r == self@.0,
    {
        self.mantissa
    }

    /// The decimal scale.
    pub fn scale(&self) -> (r: u32)
        ensures
            r == self@.1,
    {
        self.scale
    }

    /// The value is zero.
    pub fn is_zero(&self) -> (r: bool)
        ensures
            r == (self@.0 == 0),
    {
        self.mantissa == 0
    }

    /// Parses decimal text as `rust_decimal`'s `FromStr` does.
    ///
    /// Trusted: calls `<rust_decimal::Decimal as FromStr>::from_str`; claims
    /// that the result is the named parse of the text.
    #[verifier::external_body]
    fn raw_parse(s: &str) -> (r: Option<Dec>)
        ensures
            opt_model(r) == decimal_parse(s@),
    {
        match <rust_decimal::Decimal as core::str::FromStr>::from_str(s) {
            Ok(d) => Some(Dec { mantissa: d.mantissa(), scale: d.scale() }),
            Err(_) => None,
        }
    }

    /// Numeric `self < other`.
    ///
    /// Trusted: calls `rust_decimal`'s `PartialOrd::lt`, which compares the
    /// numeric values of the two decimals.
    #[verifier::external_body]
    fn raw_lt(&self, other: &Dec) -> (r: bool)
        ensures
            r == model_lt(self@, other@),
    {
        rust_decimal::Decimal::from_i128_with_scale(self.mantissa, self.scale)
            < rust_decimal::Decimal::from_i128_with_scale(other.mantissa, other.scale)
    }

    /// Numeric `self < other`.
    pub fn lt(&self, other: &Dec) -> (r: bool)
        ensures
            r == model_lt(self@, other@),
    {
        self.raw_lt(other)
    }

    /// Numeric `self <= other`.
    pub fn le(&self, other: &Dec) -> (r: bool)
        ensures
            r == model_le(self@, other@),
    {
        !other.lt(self)
    }

    /// The two are numerically equal (whatever their scales).
    pub fn eq_value(&self, other: &Dec) -> (r: bool)
        ensures
            r == (model_le(self@, other@) && model_le(other@, self@)),
    {
        self.le(other) && other.le(self)
    }

    /// The smaller of the two; `self` where they are numerically equal (as
    /// `Ord::min` picks).
    pub fn min(self, other: Dec) -> (r: Dec)
        ensures
            r == (if model_lt(other@, self@) { other } else { self }),
    {
        if other.lt(&self) {
            other
        } else {
            self
        }
    }

    /// `self + other`, or `None` where `rust_decimal`'s `+` panics.
    ///
    /// Trusted: calls `rust_decimal::Decimal::checked_add`, which returns the
    /// sum that `+` returns and `None` exactly where `+` panics.
    #[verifier::external_body]
    fn raw_checked_add(self, other: Dec) -> (r: Option<Dec>)
        ensures
            opt_model(r) == decimal_sum(self@, other@),
    {
        let x = rust_decimal::Decimal::from_i128_with_scale(self.mantissa, self.scale);
        let y = rust_decimal::Decimal::from_i128_with_scale(other.mantissa, other.scale);
        match x.checked_add(y) {
            Some(z) => Some(Dec { mantissa: z.mantissa(), scale: z.scale() }),
            None => None,
        }
    }

    /// `self - other`, or `None` where `rust_decimal`'s `-` panics.
    ///
    /// Trusted: calls `rust_decimal::Decimal::checked_sub`, which returns the
    /// difference that `-` returns and `None` exactly where `-` panics.
    #[verifier::external_body]
    fn raw_checked_sub(self, other: Dec) -> (r: Option<Dec>)
        ensures
            opt_model(r) == decimal_difference(self@, other@),
    {
        let x = rust_decimal::Decimal::from_i128_with_scale(self.mantissa, self.scale);
        let y = rust_decimal::Decimal::from_i128_with_scale(other.mantissa, other.scale);
        match x.checked_sub(y) {
            Some(z) => Some(Dec { mantissa: z.mantissa(), scale: z.scale() }),
            None => None,
        }
    }

    /// `self * other`, or `None` where `rust_decimal`'s `*` panics.
    ///
    /// Trusted: calls `rust_decimal::Decimal::checked_mul`, which returns the
    /// product that `*` returns and `None` exactly where `*` panics.
    #[verifier::external_body]
    fn raw_checked_mul(self, other: Dec) -> (r: Option<Dec>)
        ensures
            opt_model(r) == decimal_product(self@, other@),
    {
        let x = rust_decimal::Decimal::from_i128_with_scale(self.mantissa, self.scale);
        let y = rust_decimal::Decimal::from_i128_with_scale(other.mantissa, other.scale);
        match x.checked_mul(y) {
            Some(z) => Some(Dec { mantissa: z.mantissa(), scale: z.scale() }),
            None => None,
        }
    }

    /// `self / other`, or `None` where `rust_decimal`'s `/` panics; in
    /// particular `None` when `other` is zero.
    ///
    /// Trusted: calls `rust_decimal::Decimal::checked_div`, which returns the
    /// quotient that `/` returns, and `None` exactly where `/` panics, which it
    /// does for a zero divisor. One divided by a nonzero decimal does not
    /// overflow: its magnitude is at most 10^28, within the 96-bit mantissa
    /// at scale 0.
    #[verifier::external_body]
    fn raw_checked_div(self, other: Dec) -> (r: Option<Dec>)
        ensures
            opt_model(r) == decimal_quotient(self@, other@),
            other@.0 == 0 ==> r is None,
            self@ == (1int, 0nat) && other@.0 != 0 ==> r is Some,
    {
        let x = rust_decimal::Decimal::from_i128_with_scale(self.mantissa, self.scale);
        let y = rust_decimal::Decimal::from_i128_with_scale(other.mantissa, other.scale);
        match x.checked_div(y) {
            Some(z) => Some(Dec { mantissa: z.mantissa(), scale: z.scale() }),
            None => None,
        }
    }
}

impl Dec {
    /// Parses decimal text (as `rust_decimal`'s `FromStr`); `None` where it
    /// reports an error.
    pub fn parse(s: &str) -> (r: Option<Dec>)
        ensures
            r == lift(decimal_parse(s@)),
    {
        let r = Dec::raw_parse(s);
        proof { lemma_lift_model(r); }
        r
    }

    /// `self + other`; `None` where `rust_decimal`'s `+` would panic.
    pub fn checked_add(self, other: Dec) -> (r: Option<Dec>)
        ensures
            r == spec_add(self, other),
    {
        let r = self.raw_checked_add(other);
        proof { lemma_lift_model(r); }
        r
    }

    /// `self - other`; `None` where `rust_decimal`'s `-` would panic.
    pub fn checked_sub(self, other: Dec) -> (r: Option<Dec>)
        ensures
            r == spec_sub(self, other),
    {
        let r = self.raw_checked_sub(other);
        proof { lemma_lift_model(r); }
        r
    }

    /// `self * other`; `None` where `rust_decimal`'s `*` would panic.
    pub fn checked_mul(self, other: Dec) -> (r: Option<Dec>)
        ensures
            r == spec_mul(self, other),
    {
        let r = self.raw_checked_mul(other);
        proof { lemma_lift_model(r); }
        r
    }

    /// `self / other`; `None` where `rust_decimal`'s `/` would panic, in
    /// particular when `other` is zero (never for one over a nonzero decimal).
    pub fn checked_div(self, other: Dec) -> (r: Option<Dec>)
        ensures
            r == spec_div(self, other),
            other@.0 == 0 ==> r is None,
            self@ == (1int, 0nat) && other@.0 != 0 ==> r is Some,
    {
        let r = self.raw_checked_div(other);
        proof { lemma_lift_model(r); }
        r
    }

    /// `self` as a literal of its own model.
    pub proof fn lemma_view_determines(self)
        ensures
            from_model(self@) == self,
    {
    }
}

/// An optional decimal is recovered from its model.
proof fn lemma_lift_model(o: Option<Dec>)
    ensures
        lift(opt_model(o)) == o,
{
}

/// `10^n` is positive.
pub proof fn lemma_pow10_positive(n: nat)
    ensures
        pow10(n) > 0,
    decreases n,
{
    if n > 0 {
        lemma_pow10_positive((n - 1) as nat);
    }
}

/// Numeric order on decimal models is total: one of any two is at most the other.
pub proof fn lemma_model_le_total(a: (int, nat), b: (int, nat))
    ensures
        model_le(a, b) || model_le(b, a),
        model_lt(a, b) <==> !model_le(b, a),
{
}

/// Numeric order on decimal models is transitive.
pub proof fn lemma_model_le_transitive(a: (int, nat), b: (int, nat), c: (int, nat))
    requires
        model_le(a, b),
        model_le(b, c),
    ensures
        model_le(a, c),
{
    lemma_pow10_positive(a.1);
    lemma_pow10_positive(b.1);
    lemma_pow10_positive(c.1);
    let pa = pow10(a.1);
    let pb = pow10(b.1);
    let pc = pow10(c.1);
    assert(a.0 * pb * pc <= b.0 * pa * pc) by (nonlinear_arith)
        requires
            a.0 * pb <= b.0 * pa,
            pc > 0,
    ;
    assert(b.0 * pc * pa <= c.0 * pb * pa) by (nonlinear_arith)
        requires
            b.0 * pc <= c.0 * pb,
            pa > 0,
    ;
    assert(a.0 * pc <= c.0 * pa) by (nonlinear_arith)
        requires
            a.0 * pb * pc <= b.0 * pa * pc,
            b.0 * pc * pa <= c.0 * pb * pa,
            pb > 0,
    ;
}

} // verus!
