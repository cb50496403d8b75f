//! Exact decimal prices.
//!
//! A [`Price`] is a 96-bit signed mantissa and a decimal scale of at most 28,
//! the representation of `rust_decimal::Decimal`. Comparison is stated exactly
//! over [`Price::units`], and so are rounding to a whole number and the
//! text of a price; sums, differences, products and quotients are computed
//! by `rust_decimal` and named here, since its rules for them are long.

use crate::text::digits_of;
use rust_decimal::Decimal;
use vstd::prelude::*;

verus! {

/// The largest mantissa, `2^96 - 1`.
pub const MAX_MANTISSA: i128 = 79_228_162_514_264_337_593_543_950_335;

/// The largest scale: the number of digits after the decimal point.
pub const MAX_SCALE: u32 = 28;

/// Ten to the power `n`.
pub open spec fn pow10(n: nat) -> int
    decreases n,
{
    if n == 0 {
        1
    } else {
        10 * pow10((n - 1) as nat)
    }
}

/// Every power of ten is positive.
pub proof fn lemma_pow10_positive(n: nat)
    ensures
        pow10(n) > 0,
    decreases n,
{
    if n > 0 {
        lemma_pow10_positive((n - 1) as nat);
    }
}

/// Mantissa and scale of `rust_decimal`'s checked sum of two decimals, each
/// given by mantissa and scale; `None` where it reports an overflow.
pub uninterp spec fn decimal_sum(am: int, asc: nat, bm: int, bsc: nat) -> Option<(int, nat)>;

/// Mantissa and scale of `rust_decimal`'s checked difference.
pub uninterp spec fn decimal_difference(am: int, asc: nat, bm: int, bsc: nat) -> Option<(int, nat)>;

/// Mantissa and scale of `rust_decimal`'s checked product.
pub uninterp spec fn decimal_product(am: int, asc: nat, bm: int, bsc: nat) -> Option<(int, nat)>;

/// Mantissa and scale of `rust_decimal`'s checked quotient; `None` where the
/// divisor is zero or it reports an overflow.
pub uninterp spec fn decimal_quotient(am: int, asc: nat, bm: int, bsc: nat) -> Option<(int, nat)>;

/// The number of whole units in `a`, rounded to the nearest, and to the even
/// one of two that are equally near.
pub open spec fn rounded_half_even(a: int, unit: int) -> int {
    let whole = a / unit;
    let rest = a % unit;
    if 2 * rest > unit || (2 * rest == unit && whole % 2 == 1) {
        whole + 1
    } else {
        whole
    }
}

/// Mantissa and scale of a decimal rounded to a whole number: the size is
/// rounded half to even, the sign stays, and no digit is left after the
/// point. A decimal without digits after the point is left as it is.
pub open spec fn decimal_rounded(m: int, sc: nat) -> (int, nat) {
    if sc == 0 {
        (m, 0)
    } else if m < 0 {
        (-rounded_half_even(-m, pow10(sc)), 0)
    } else {
        (rounded_half_even(m, pow10(sc)), 0)
    }
}

/// The last `width` decimal digits of a number as bytes, with zeros in
/// front where it has fewer.
pub open spec fn padded_digits(n: nat, width: nat) -> Seq<u8>
    decreases width,
{
    if width == 0 {
        Seq::empty()
    } else {
        padded_digits(n / 10, (width - 1) as nat).push((48 + n % 10) as u8)
    }
}

/// The text of a decimal, in bytes: a minus sign where it is below zero,
/// the digits of its whole part, and, where it has digits after the point,
/// the point and exactly those digits.
pub open spec fn decimal_text(m: int, sc: nat) -> Seq<u8> {
    let size = if m < 0 {
        -m
    } else {
        m
    };
    let sign = if m < 0 {
        seq![45u8]
    } else {
        Seq::<u8>::empty()
    };
    let whole = digits_of((size / pow10(sc)) as nat);
    if sc == 0 {
        sign + whole
    } else {
        sign + whole + seq![46u8] + padded_digits((size % pow10(sc)) as nat, sc)
    }
}

/// An exact decimal number, `mantissa / 10^scale`.
#[derive(Clone, Copy, Debug)]
pub struct Price {
    mantissa: i128,
    scale: u32,
}

impl View for Price {
    type V = (int, nat);

    closed spec fn view(&self) -> (int, nat) {
        (self.mantissa as int, self.scale as nat)
    }
}

impl Price {
    /// The representation invariant: what a `Decimal` can hold.
    #[verifier::type_invariant]
    pub closed spec fn wf(self) -> bool {
        &&& self.scale <= MAX_SCALE
        &&& -MAX_MANTISSA <= self.mantissa <= MAX_MANTISSA
    }

    /// Whether a mantissa and a scale are within what a price can hold.
    pub open spec fn in_range(mantissa: int, scale: nat) -> bool {
        &&& scale <= MAX_SCALE
        &&& -MAX_MANTISSA <= mantissa <= MAX_MANTISSA
    }

    /// The price with the given mantissa and scale.
    pub closed spec fn from_repr(mantissa: int, scale: nat) -> Price {
        Price { mantissa: mantissa as i128, scale: scale as u32 }
    }

    /// The signed digits of the price.
    pub open spec fn spec_mantissa(self) -> int {
        self@.0
    }

    /// The number of those digits that stand after the decimal point.
    pub open spec fn spec_scale(self) -> nat {
        self@.1
    }

    /// The value in units of `10^-28`: an integer that orders prices as their
    /// values do, whatever their scales.
    pub open spec fn units(self) -> int {
        self.spec_mantissa() * pow10((MAX_SCALE - self.spec_scale()) as nat)
    }

    pub open spec fn spec_zero() -> Price {
        Price::from_repr(0, 0)
    }

    pub open spec fn spec_one() -> Price {
        Price::from_repr(1, 0)
    }

    pub open spec fn spec_two() -> Price {
        Price::from_repr(2, 0)
    }

    pub open spec fn spec_max_value() -> Price {
        Price::from_repr(MAX_MANTISSA as int, 0)
    }

    pub open spec fn spec_min_value() -> Price {
        Price::from_repr(-MAX_MANTISSA, 0)
    }

    /// The bound a sum or difference is held to where it overflows: by the
    /// sign of the left operand.
    pub open spec fn bound_by_sign(self) -> Price {
        if self.spec_mantissa() >= 0 {
            Price::spec_max_value()
        } else {
            Price::spec_min_value()
        }
    }

    /// The bound a product or quotient is held to where it overflows: the
    /// largest value where the signs agree, the smallest where they differ.
    pub open spec fn bound_by_signs(self, rhs: Price) -> Price {
        if (self.spec_mantissa() >= 0) == (rhs.spec_mantissa() >= 0) {
            Price::spec_max_value()
        } else {
            Price::spec_min_value()
        }
    }

    pub open spec fn of_parts(parts: (int, nat)) -> Price {
        Price::from_repr(parts.0, parts.1)
    }

    /// The sum, held to the largest or smallest price on overflow.
    pub open spec fn spec_add(self, rhs: Price) -> Price {
        match decimal_sum(self@.0, self@.1, rhs@.0, rhs@.1) {
            Some(parts) => Price::of_parts(parts),
            None => self.bound_by_sign(),
        }
    }

    /// The difference, held to the largest or smallest price on overflow.
    pub open spec fn spec_sub(self, rhs: Price) -> Price {
        match decimal_difference(self@.0, self@.1, rhs@.0, rhs@.1) {
            Some(parts) => Price::of_parts(parts),
            None => self.bound_by_sign(),
        }
    }

    /// The product, held to the largest or smallest price on overflow.
    pub open spec fn spec_mul(self, rhs: Price) -> Price {
        match decimal_product(self@.0, self@.1, rhs@.0, rhs@.1) {
            Some(parts) => Price::of_parts(parts),
            None => self.bound_by_signs(rhs),
        }
    }

    /// The quotient: zero where the divisor is zero, and held to the largest
    /// or smallest price on overflow.
    pub open spec fn spec_div(self, rhs: Price) -> Price {
        if rhs.spec_mantissa() == 0 {
            Price::spec_zero()
        } else {
            match decimal_quotient(self@.0, self@.1, rhs@.0, rhs@.1) {
                Some(parts) => Price::of_parts(parts),
                None => self.bound_by_signs(rhs),
            }
        }
    }

    /// The larger of two prices; the left one where they are equal in value.
    pub open spec fn spec_max(self, other: Price) -> Price {
        if self.units() < other.units() {
            other
        } else {
            self
        }
    }

    /// The smaller of two prices; the left one where they are equal in value.
    pub open spec fn spec_min(self, other: Price) -> Price {
        if self.units() > other.units() {
            other
        } else {
            self
        }
    }

    /// `self` held between `low` and `high`: raised to `low` first, then
    /// lowered to `high`.
    pub open spec fn spec_clamp(self, low: Price, high: Price) -> Price {
        self.spec_max(low).spec_min(high)
    }

    pub open spec fn spec_abs(self) -> Price {
        Price::from_repr(if self.spec_mantissa() < 0 { -self.spec_mantissa() } else { self.spec_mantissa() }, self.spec_scale())
    }

    pub open spec fn spec_neg(self) -> Price {
        Price::from_repr(-self.spec_mantissa(), self.spec_scale())
    }

    /// A price is the price of its mantissa and scale.
    proof fn lemma_of_parts(self)
        requires
            self.wf(),
        ensures
            Price::of_parts(self@) == self,
    {
    }

    /// A price has the sign of its mantissa.
    pub proof fn lemma_units_sign(self)
        requires
            self.spec_scale() <= MAX_SCALE,
        ensures
            self.units() > 0 <==> self.spec_mantissa() > 0,
            self.units() < 0 <==> self.spec_mantissa() < 0,
            self.units() == 0 <==> self.spec_mantissa() == 0,
    {
        let p = pow10((MAX_SCALE - self.spec_scale()) as nat);
        lemma_pow10_positive((MAX_SCALE - self.spec_scale()) as nat);
        let m = self.spec_mantissa();
        assert(m > 0 ==> m * p > 0) by (nonlinear_arith)
            requires
                p > 0,
        ;
        assert(m < 0 ==> m * p < 0) by (nonlinear_arith)
            requires
                p > 0,
        ;
        assert(m == 0 ==> m * p == 0) by (nonlinear_arith);
    }

    /// Prices of one scale are ordered as their mantissas are.
    pub proof fn lemma_units_same_scale(a: Price, b: Price)
        requires
            a.spec_scale() == b.spec_scale(),
            a.spec_scale() <= MAX_SCALE,
        ensures
            a.units() < b.units() <==> a.spec_mantissa() < b.spec_mantissa(),
            a.units() == b.units() <==> a.spec_mantissa() == b.spec_mantissa(),
    {
        let p = pow10((MAX_SCALE - a.spec_scale()) as nat);
        lemma_pow10_positive((MAX_SCALE - a.spec_scale()) as nat);
        let x = a.spec_mantissa();
        let y = b.spec_mantissa();
        assert(x < y ==> x * p < y * p) by (nonlinear_arith)
            requires
                p > 0,
        ;
        assert(x > y ==> x * p > y * p) by (nonlinear_arith)
            requires
                p > 0,
        ;
    }

    /// One more digit after the point, and a mantissa ten times as large,
    /// give the same value.
    pub proof fn lemma_units_rescale(mantissa: int, scale: nat)
        requires
            Price::in_range(mantissa, scale),
            Price::in_range(10 * mantissa, scale + 1),
        ensures
            Price::from_repr(mantissa, scale).units() == Price::from_repr(10 * mantissa, scale + 1).units(),
    {
        let k = (MAX_SCALE - scale - 1) as nat;
        assert(pow10(k + 1) == 10 * pow10(k));
        assert(mantissa * (10 * pow10(k)) == (10 * mantissa) * pow10(k)) by (nonlinear_arith);
    }

    /// The price with the given mantissa and scale, where a price can hold
    /// them.
    pub fn from_parts(mantissa: i128, scale: u32) -> (r: Option<Price>)
        ensures
            r.is_some() <==> Price::in_range(mantissa as int, scale as nat),
            r matches Some(p) ==> p == Price::from_repr(mantissa as int, scale as nat) && p@ == (
                mantissa as int,
                scale as nat,
            ),
    {
        if scale <= MAX_SCALE && -MAX_MANTISSA <= mantissa && mantissa <= MAX_MANTISSA {
            Some(Price { mantissa, scale })
        } else {
            None
        }
    }

    /// `num / 10^scale`.
    pub fn new(num: i64, scale: u32) -> (r: Price)
        requires
            scale <= MAX_SCALE,
        ensures
            r == Price::from_repr(num as int, scale as nat),
            r@ == (num as int, scale as nat),
    {
        Price { mantissa: num as i128, scale }
    }

    /// The whole number `n`.
    pub fn from_u64(n: u64) -> (r: Price)
        ensures
            r == Price::from_repr(n as int, 0),
            r@ == (n as int, 0nat),
    {
        Price { mantissa: n as i128, scale: 0 }
    }

    /// The whole number `n`.
    pub fn from_usize(n: usize) -> (r: Price)
        ensures
            r == Price::from_repr(n as int, 0),
            r@ == (n as int, 0nat),
    {
        Price { mantissa: n as i128, scale: 0 }
    }

    pub fn zero() -> (r: Price)
        ensures
            r == Price::spec_zero(),
            r@ == (0int, 0nat),
    {
        Price { mantissa: 0, scale: 0 }
    }

    pub fn one() -> (r: Price)
        ensures
            r == Price::spec_one(),
            r@ == (1int, 0nat),
    {
        Price { mantissa: 1, scale: 0 }
    }

    pub fn two() -> (r: Price)
        ensures
            r == Price::spec_two(),
            r@ == (2int, 0nat),
    {
        Price { mantissa: 2, scale: 0 }
    }

    /// The largest price.
    pub fn max_value() -> (r: Price)
        ensures
            r == Price::spec_max_value(),
            r@ == (MAX_MANTISSA as int, 0nat),
    {
        Price { mantissa: MAX_MANTISSA, scale: 0 }
    }

    /// The smallest price.
    pub fn min_value() -> (r: Price)
        ensures
            r == Price::spec_min_value(),
            r@ == (-MAX_MANTISSA, 0nat),
    {
        Price { mantissa: -MAX_MANTISSA, scale: 0 }
    }

    pub fn mantissa(&self) -> (r: i128)
        ensures
            r == self.spec_mantissa(),
            -MAX_MANTISSA <= r <= MAX_MANTISSA,
    {
        proof {
            use_type_invariant(self);
        }
        self.mantissa
    }

    pub fn scale(&self) -> (r: u32)
        ensures
            r == self.spec_scale(),
            r <= MAX_SCALE,
    {
        proof {
            use_type_invariant(self);
        }
        self.scale
    }

    pub fn is_zero(&self) -> (r: bool)
        ensures
            r == (self.spec_mantissa() == 0),
            r == (self.units() == 0),
    {
        proof {
            use_type_invariant(self);
            self.lemma_units_sign();
        }
        self.mantissa == 0
    }

    /// Whether the price is above zero.
    pub fn is_positive(&self) -> (r: bool)
        ensures
            r == (self.units() > 0),
    {
        proof {
            use_type_invariant(self);
            self.lemma_units_sign();
        }
        self.mantissa > 0
    }

    /// Whether the price is below zero.
    pub fn is_negative(&self) -> (r: bool)
        ensures
            r == (self.units() < 0),
    {
        proof {
            use_type_invariant(self);
            self.lemma_units_sign();
        }
        self.mantissa < 0
    }

    pub fn lt(&self, other: &Price) -> (r: bool)
        ensures
            r == (self.units() < other.units()),
    {
        proof {
            use_type_invariant(self);
            use_type_invariant(other);
        }
        decimal_lt(*self, *other)
    }

    pub fn gt(&self, other: &Price) -> (r: bool)
        ensures
            r == (self.units() > other.units()),
    {
        other.lt(self)
    }

    pub fn le(&self, other: &Price) -> (r: bool)
        ensures
            r == (self.units() <= other.units()),
    {
        !other.lt(self)
    }

    pub fn ge(&self, other: &Price) -> (r: bool)
        ensures
            r == (self.units() >= other.units()),
    {
        !self.lt(other)
    }

    /// Whether two prices have one value, whatever their scales.
    pub fn same_value(&self, other: &Price) -> (r: bool)
        ensures
            r == (self.units() == other.units()),
    {
        !self.lt(other) && !other.lt(self)
    }

    pub fn max(self, other: Price) -> (r: Price)
        ensures
            r == self.spec_max(other),
            r.units() >= self.units(),
            r.units() >= other.units(),
    {
        if self.lt(&other) {
            other
        } else {
            self
        }
    }

    pub fn min(self, other: Price) -> (r: Price)
        ensures
            r == self.spec_min(other),
            r.units() <= self.units(),
            r.units() <= other.units(),
    {
        if self.gt(&other) {
            other
        } else {
            self
        }
    }

    /// `self` held between `low` and `high`.
    pub fn clamp(self, low: Price, high: Price) -> (r: Price)
        ensures
            r == self.spec_clamp(low, high),
            r.units() <= high.units(),
            low.units() <= high.units() ==> low.units() <= r.units(),
    {
        self.max(low).min(high)
    }

    pub fn abs(self) -> (r: Price)
        ensures
            r == self.spec_abs(),
            r.units() >= 0,
    {
        proof {
            use_type_invariant(self);
        }
        let r = if self.mantissa < 0 {
            Price { mantissa: -self.mantissa, scale: self.scale }
        } else {
            self
        };
        proof {
            r.lemma_units_sign();
        }
        r
    }

    pub fn neg(self) -> (r: Price)
        ensures
            r == self.spec_neg(),
    {
        proof {
            use_type_invariant(self);
        }
        Price { mantissa: -self.mantissa, scale: self.scale }
    }

    /// The sum; on overflow the largest price where `self` is not negative,
    /// the smallest where it is.
    pub fn saturating_add(self, rhs: Price) -> (r: Price)
        ensures
            r == self.spec_add(rhs),
    {
        proof {
            use_type_invariant(self);
            use_type_invariant(rhs);
        }
        match decimal_checked_add(self, rhs) {
            Some(p) => {
                proof {
                    p.lemma_of_parts();
                }
                p
            },
            None => self.bound(),
        }
    }

    /// The difference; on overflow the largest price where `self` is not
    /// negative, the smallest where it is.
    pub fn saturating_sub(self, rhs: Price) -> (r: Price)
        ensures
            r == self.spec_sub(rhs),
    {
        proof {
            use_type_invariant(self);
            use_type_invariant(rhs);
        }
        match decimal_checked_sub(self, rhs) {
            Some(p) => {
                proof {
                    p.lemma_of_parts();
                }
                p
            },
            None => self.bound(),
        }
    }

    /// The product; on overflow the largest price where the signs agree, the
    /// smallest where they differ.
    pub fn saturating_mul(self, rhs: Price) -> (r: Price)
        ensures
            r == self.spec_mul(rhs),
    {
        proof {
            use_type_invariant(self);
            use_type_invariant(rhs);
        }
        match decimal_checked_mul(self, rhs) {
            Some(p) => {
                proof {
                    p.lemma_of_parts();
                }
                p
            },
            None => self.bound_with(rhs),
        }
    }

    /// The quotient; zero where `rhs` is zero; on overflow the largest price
    /// where the signs agree, the smallest where they differ.
    pub fn saturating_div(self, rhs: Price) -> (r: Price)
        ensures
            r == self.spec_div(rhs),
    {
        proof {
            use_type_invariant(self);
            use_type_invariant(rhs);
        }
        if rhs.mantissa == 0 {
            Price::zero()
        } else {
            match decimal_checked_div(self, rhs) {
                Some(p) => p,
                None => self.bound_with(rhs),
            }
        }
    }

    /// The nearest whole number, and the even one of two that are equally
    /// near.
    pub open spec fn spec_round(self) -> Price {
        Price::of_parts(decimal_rounded(self@.0, self@.1))
    }

    /// The nearest whole number: a price without digits after the point.
    pub fn round(self) -> (r: Price)
        ensures
            r == self.spec_round(),
            r.spec_scale() == 0,
    {
        proof {
            use_type_invariant(self);
        }
        let r = decimal_round(self);
        proof {
            r.lemma_of_parts();
        }
        r
    }

    /// The price as a count, where it has no digits after the point, is not
    /// negative and fits.
    pub fn whole_as_usize(&self) -> (r: Option<usize>)
        ensures
            r.is_some() <==> self.spec_scale() == 0 && 0 <= self.spec_mantissa() <= usize::MAX,
            r matches Some(n) ==> n == self.spec_mantissa(),
    {
        if self.scale == 0 && self.mantissa >= 0 && self.mantissa <= usize::MAX as i128 {
            Some(self.mantissa as usize)
        } else {
            None
        }
    }

    /// The price as text: digits, with a point before the last `scale` of
    /// them where there are any, after a minus sign where it is below zero.
    pub open spec fn spec_text(self) -> Seq<u8> {
        decimal_text(self@.0, self@.1)
    }

    /// The price as text.
    pub fn to_text(&self) -> (r: Vec<u8>)
        ensures
            r@ == self.spec_text(),
    {
        proof {
            use_type_invariant(self);
        }
        decimal_to_text(*self)
    }

    fn bound(self) -> (r: Price)
        ensures
            r == self.bound_by_sign(),
    {
        if self.mantissa >= 0 {
            Price::max_value()
        } else {
            Price::min_value()
        }
    }

    fn bound_with(self, rhs: Price) -> (r: Price)
        ensures
            r == self.bound_by_signs(rhs),
    {
        if (self.mantissa >= 0) == (rhs.mantissa >= 0) {
            Price::max_value()
        } else {
            Price::min_value()
        }
    }

    pub(crate) open spec fn parts(r: Option<Price>) -> Option<(int, nat)> {
        match r {
            Some(p) => Some(p@),
            None => None,
        }
    }
}

/// A price is given by its mantissa and scale.
pub broadcast proof fn lemma_price_repr(mantissa: int, scale: nat)
    requires
        Price::in_range(mantissa, scale),
    ensures
        #[trigger] Price::from_repr(mantissa, scale)@ == (mantissa, scale),
{
}

impl PartialEq for Price {
    /// Equality of value: `1.0 == 1.00`.
    fn eq(&self, other: &Price) -> (r: bool) {
        self.same_value(other)
    }
}

impl vstd::std_specs::cmp::PartialEqSpecImpl for Price {
    open spec fn obeys_eq_spec() -> bool {
        true
    }

    open spec fn eq_spec(&self, other: &Price) -> bool {
        self.units() == other.units()
    }
}

/// `Decimal`'s `<` on the two decimals with these mantissas and scales: it
/// orders decimals by their values, whatever their scales.
#[verifier::external_body]
fn decimal_lt(a: Price, b: Price) -> (r: bool)
    requires
        a.wf(),
        b.wf(),
    ensures
        r == (a.units() < b.units()),
{
    Decimal::from_i128_with_scale(a.mantissa, a.scale) < Decimal::from_i128_with_scale(b.mantissa, b.scale)
}

/// `Decimal::checked_add`: the result is a decimal, named by [`decimal_sum`].
#[verifier::external_body]
fn decimal_checked_add(a: Price, b: Price) -> (r: Option<Price>)
    requires
        a.wf(),
        b.wf(),
    ensures
        r matches Some(p) ==> p.wf(),
        Price::parts(r) == decimal_sum(a@.0, a@.1, b@.0, b@.1),
{
    Decimal::from_i128_with_scale(a.mantissa, a.scale)
        .checked_add(Decimal::from_i128_with_scale(b.mantissa, b.scale))
        .map(|d| Price { mantissa: d.mantissa(), scale: d.scale() })
}

/// `Decimal::checked_sub`: the result is a decimal, named by
/// [`decimal_difference`].
#[verifier::external_body]
fn decimal_checked_sub(a: Price, b: Price) -> (r: Option<Price>)
    requires
        a.wf(),
        b.wf(),
    ensures
        r matches Some(p) ==> p.wf(),
        Price::parts(r) == decimal_difference(a@.0, a@.1, b@.0, b@.1),
{
    Decimal::from_i128_with_scale(a.mantissa, a.scale)
        .checked_sub(Decimal::from_i128_with_scale(b.mantissa, b.scale))
        .map(|d| Price { mantissa: d.mantissa(), scale: d.scale() })
}

/// `Decimal::checked_mul`: the result is a decimal, named by
/// [`decimal_product`].
#[verifier::external_body]
fn decimal_checked_mul(a: Price, b: Price) -> (r: Option<Price>)
    requires
        a.wf(),
        b.wf(),
    ensures
        r matches Some(p) ==> p.wf(),
        Price::parts(r) == decimal_product(a@.0, a@.1, b@.0, b@.1),
{
    Decimal::from_i128_with_scale(a.mantissa, a.scale)
        .checked_mul(Decimal::from_i128_with_scale(b.mantissa, b.scale))
        .map(|d| Price { mantissa: d.mantissa(), scale: d.scale() })
}

/// `Decimal::checked_div`: the result is a decimal, named by
/// [`decimal_quotient`].
#[verifier::external_body]
fn decimal_checked_div(a: Price, b: Price) -> (r: Option<Price>)
    requires
        a.wf(),
        b.wf(),
    ensures
        r matches Some(p) ==> p.wf(),
        Price::parts(r) == decimal_quotient(a@.0, a@.1, b@.0, b@.1),
{
    Decimal::from_i128_with_scale(a.mantissa, a.scale)
        .checked_div(Decimal::from_i128_with_scale(b.mantissa, b.scale))
        .map(|d| Price { mantissa: d.mantissa(), scale: d.scale() })
}

/// `Decimal`'s `to_string`, as bytes: the text that [`decimal_text`] states,
/// which is what `rust_decimal` writes for a decimal with this mantissa and
/// scale when no precision is asked for.
#[verifier::external_body]
fn decimal_to_text(a: Price) -> (r: Vec<u8>)
    requires
        a.wf(),
    ensures
        r@ == decimal_text(a@.0, a@.1),
{
    Decimal::from_i128_with_scale(a.mantissa, a.scale).to_string().into_bytes()
}

/// `Decimal::round`: the decimal that [`decimal_rounded`] states, which is
/// `rust_decimal`'s rounding half to even to no digits after the point.
#[verifier::external_body]
fn decimal_round(a: Price) -> (r: Price)
    requires
        a.wf(),
    ensures
        r.wf(),
        r@ == decimal_rounded(a@.0, a@.1),
        r@.1 == 0,
{
    let d = Decimal::from_i128_with_scale(a.mantissa, a.scale).round();
    Price { mantissa: d.mantissa(), scale: d.scale() }
}

} // verus!
