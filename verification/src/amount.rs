//! Exact signed decimal amounts.
//!
//! An [`Amount`] holds a decimal number as an integer mantissa and a scale: the
//! number is `mantissa / 10^scale`. Products, quotients and differences are
//! computed by `rust_decimal`; the library carries the operands and the results
//! as plain integers.

use rust_decimal::Decimal;
use vstd::prelude::*;

verus! {

/// Largest scale a decimal amount can have.
pub const MAX_SCALE: u32 = 28;

/// Largest magnitude of a mantissa: ninety-six bits, all set.
pub const MAX_MANTISSA: i128 = 0xFFFF_FFFF_FFFF_FFFF_FFFF_FFFF;

/// Mathematical content of an [`Amount`]: the number `mantissa / 10^scale`.
pub struct DecimalValue {
    pub mantissa: int,
    pub scale: int,
}

impl DecimalValue {
    /// The value with the opposite sign and the same scale.
    pub open spec fn negated(self) -> DecimalValue {
        DecimalValue { mantissa: -self.mantissa, scale: self.scale }
    }

    /// Whether the number is zero, at whatever scale.
    pub open spec fn is_zero(self) -> bool {
        self.mantissa == 0
    }
}

/// Whether a mantissa and a scale can be held by an [`Amount`].
pub open spec fn representable(mantissa: int, scale: int) -> bool {
    &&& 0 <= scale <= MAX_SCALE
    &&& -MAX_MANTISSA <= mantissa <= MAX_MANTISSA
}

/// What `rust_decimal` gives as the product of two decimals, each given by its
/// mantissa and scale; `None` where it reports an overflow.
pub uninterp spec fn decimal_product(
    a_mantissa: i128,
    a_scale: u32,
    b_mantissa: i128,
    b_scale: u32,
) -> Option<(i128, u32)>;

/// What `rust_decimal` gives as the quotient of two decimals, each given by its
/// mantissa and scale; `None` where it reports a zero divisor or an overflow.
pub uninterp spec fn decimal_quotient(
    a_mantissa: i128,
    a_scale: u32,
    b_mantissa: i128,
    b_scale: u32,
) -> Option<(i128, u32)>;

/// What `rust_decimal` gives as the difference of two decimals, each given by
/// its mantissa and scale; `None` where it reports an overflow.
pub uninterp spec fn decimal_difference(
    a_mantissa: i128,
    a_scale: u32,
    b_mantissa: i128,
    b_scale: u32,
) -> Option<(i128, u32)>;

/// Calls `rust_decimal::Decimal::checked_mul` on the two decimals built from
/// the given mantissas and scales, and hands back the mantissa and scale of
/// the product. Nothing is claimed of the product beyond its name.
#[verifier::external_body]
fn decimal_checked_mul(a_mantissa: i128, a_scale: u32, b_mantissa: i128, b_scale: u32) -> (r:
    Option<(i128, u32)>)
    requires
        representable(a_mantissa as int, a_scale as int),
        representable(b_mantissa as int, b_scale as int),
    ensures
        r == decimal_product(a_mantissa, a_scale, b_mantissa, b_scale),
{
    let a = Decimal::from_i128_with_scale(a_mantissa, a_scale);
    let b = Decimal::from_i128_with_scale(b_mantissa, b_scale);
    match a.checked_mul(b) {
        Some(p) => Some((p.mantissa(), p.scale())),
        None => None,
    }
}

/// Calls `rust_decimal::Decimal::checked_div` on the two decimals built from
/// the given mantissas and scales, and hands back the mantissa and scale of
/// the quotient. Nothing is claimed of the quotient beyond its name.
#[verifier::external_body]
fn decimal_checked_div(a_mantissa: i128, a_scale: u32, b_mantissa: i128, b_scale: u32) -> (r:
    Option<(i128, u32)>)
    requires
        representable(a_mantissa as int, a_scale as int),
        representable(b_mantissa as int, b_scale as int),
    ensures
        r == decimal_quotient(a_mantissa, a_scale, b_mantissa, b_scale),
{
    let a = Decimal::from_i128_with_scale(a_mantissa, a_scale);
    let b = Decimal::from_i128_with_scale(b_mantissa, b_scale);
    match a.checked_div(b) {
        Some(q) => Some((q.mantissa(), q.scale())),
        None => None,
    }
}

/// Calls `rust_decimal::Decimal::checked_sub` on the two decimals built from
/// the given mantissas and scales, and hands back the mantissa and scale of
/// the difference. Nothing is claimed of the difference beyond its name.
#[verifier::external_body]
fn decimal_checked_sub(a_mantissa: i128, a_scale: u32, b_mantissa: i128, b_scale: u32) -> (r:
    Option<(i128, u32)>)
    requires
        representable(a_mantissa as int, a_scale as int),
        representable(b_mantissa as int, b_scale as int),
    ensures
        r == decimal_difference(a_mantissa, a_scale, b_mantissa, b_scale),
{
    let a = Decimal::from_i128_with_scale(a_mantissa, a_scale);
    let b = Decimal::from_i128_with_scale(b_mantissa, b_scale);
    match a.checked_sub(b) {
        Some(d) => Some((d.mantissa(), d.scale())),
        None => None,
    }
}

/// Reads a mantissa and a scale that came back from the decimal arithmetic as
/// a value, where an [`Amount`] can hold them.
pub open spec fn accepted(raw: Option<(i128, u32)>) -> Option<DecimalValue> {
    match raw {
        Some((mantissa, scale)) => if representable(mantissa as int, scale as int) {
            Some(DecimalValue { mantissa: mantissa as int, scale: scale as int })
        } else {
            None
        },
        None => None,
    }
}

/// The product of two values as the decimal arithmetic computes it.
pub open spec fn product(a: DecimalValue, b: DecimalValue) -> Option<DecimalValue> {
    accepted(
        decimal_product(a.mantissa as i128, a.scale as u32, b.mantissa as i128, b.scale as u32),
    )
}

/// The quotient of two values as the decimal arithmetic computes it.
pub open spec fn quotient(a: DecimalValue, b: DecimalValue) -> Option<DecimalValue> {
    accepted(
        decimal_quotient(a.mantissa as i128, a.scale as u32, b.mantissa as i128, b.scale as u32),
    )
}

/// The difference of two values as the decimal arithmetic computes it.
pub open spec fn difference(a: DecimalValue, b: DecimalValue) -> Option<DecimalValue> {
    accepted(
        decimal_difference(
            a.mantissa as i128,
            a.scale as u32,
            b.mantissa as i128,
            b.scale as u32,
        ),
    )
}

/// A signed decimal number with at most ninety-six bits of mantissa and at
/// most twenty-eight decimal places.
///
/// `==` compares mantissa and scale, so `1.0` and `1.00` are different
/// amounts of the same value.
#[derive(Clone, Copy, Debug, PartialEq, Eq, Hash)]
pub struct Amount {
    mantissa: i128,
    scale: u32,
}

impl View for Amount {
    type V = DecimalValue;

    closed spec fn view(&self) -> DecimalValue {
        DecimalValue { mantissa: self.mantissa as int, scale: self.scale as int }
    }
}

impl Amount {
    #[verifier::type_invariant]
    spec fn well_formed(self) -> bool {
        representable(self.mantissa as int, self.scale as int)
    }

    /// Whether the amount has a mantissa and a scale within the limits, as
    /// every amount that was built has.
    pub open spec fn valid(self) -> bool {
        representable(self@.mantissa, self@.scale)
    }

    /// The amount that holds the given value.
    pub closed spec fn of(value: DecimalValue) -> Amount {
        Amount { mantissa: value.mantissa as i128, scale: value.scale as u32 }
    }

    /// `self * other` as the decimal arithmetic computes it, `None` where the
    /// product has no representation.
    pub open spec fn times(self, other: Amount) -> Option<Amount> {
        match product(self@, other@) {
            Some(value) => Some(Amount::of(value)),
            None => None,
        }
    }

    /// `self / other` as the decimal arithmetic computes it, `None` where the
    /// divisor is rejected or the quotient has no representation.
    pub open spec fn divided_by(self, other: Amount) -> Option<Amount> {
        match quotient(self@, other@) {
            Some(value) => Some(Amount::of(value)),
            None => None,
        }
    }

    /// `self - other` as the decimal arithmetic computes it, `None` where the
    /// difference has no representation.
    pub open spec fn minus(self, other: Amount) -> Option<Amount> {
        match difference(self@, other@) {
            Some(value) => Some(Amount::of(value)),
            None => None,
        }
    }

    /// The amount with the opposite sign and the same scale.
    pub open spec fn opposite(self) -> Amount {
        Amount::of(self@.negated())
    }

    /// The opposite of a valid amount is the valid amount that adds up with
    /// it to zero at the same scale, and the opposite of the opposite is the
    /// amount itself.
    pub proof fn lemma_opposite(self)
        requires
            self.valid(),
        ensures
            self.opposite().valid(),
            self.opposite()@.mantissa + self@.mantissa == 0,
            self.opposite()@.scale == self@.scale,
            self.opposite().opposite() == self,
    {
    }

    /// What the decimal arithmetic gives is a valid amount.
    pub proof fn lemma_results_valid(self, other: Amount)
        ensures
            self.times(other) matches Some(product) ==> product.valid(),
            self.divided_by(other) matches Some(quotient) ==> quotient.valid(),
            self.minus(other) matches Some(difference) ==> difference.valid(),
    {
    }

    /// The amount `mantissa / 10^scale`, or `None` where the scale exceeds
    /// [`MAX_SCALE`] or the mantissa exceeds [`MAX_MANTISSA`] in magnitude.
    pub fn new(mantissa: i128, scale: u32) -> (r: Option<Amount>)
        ensures
            representable(mantissa as int, scale as int) ==> r == Some(
                Amount::of(DecimalValue { mantissa: mantissa as int, scale: scale as int }),
            ),
            !representable(mantissa as int, scale as int) ==> r is None,
            r matches Some(a) ==> a@ == (DecimalValue {
                mantissa: mantissa as int,
                scale: scale as int,
            }),
    {
        if scale <= MAX_SCALE && -MAX_MANTISSA <= mantissa && mantissa <= MAX_MANTISSA {
            Some(Amount { mantissa, scale })
        } else {
            None
        }
    }

    /// Zero, with scale zero.
    pub fn zero() -> (r: Amount)
        ensures
            r@ == (DecimalValue { mantissa: 0, scale: 0 }),
            r == Amount::of(DecimalValue { mantissa: 0, scale: 0 }),
    {
        Amount { mantissa: 0, scale: 0 }
    }

    /// The mantissa.
    pub fn mantissa(&self) -> (r: i128)
        ensures
            r == self@.mantissa,
            self.valid(),
    {
        proof {
            use_type_invariant(self);
        }
        self.mantissa
    }

    /// The number of decimal places.
    pub fn scale(&self) -> (r: u32)
        ensures
            r == self@.scale,
            self.valid(),
    {
        proof {
            use_type_invariant(self);
        }
        self.scale
    }

    /// Whether the amount is zero.
    pub fn is_zero(&self) -> (r: bool)
        ensures
            r == self@.is_zero(),
    {
        self.mantissa == 0
    }

    /// The amount with the opposite sign.
    pub fn negated(&self) -> (r: Amount)
        ensures
            r == self.opposite(),
            r@ == self@.negated(),
            self.valid(),
    {
        proof {
            use_type_invariant(self);
        }
        Amount { mantissa: -self.mantissa, scale: self.scale }
    }

    /// `self * other`, or `None` where the product has no representation.
    pub fn checked_mul(&self, other: &Amount) -> (r: Option<Amount>)
        ensures
            r == self.times(*other),
    {
        proof {
            use_type_invariant(self);
            use_type_invariant(other);
        }
        match decimal_checked_mul(self.mantissa, self.scale, other.mantissa, other.scale) {
            Some((mantissa, scale)) => Amount::new(mantissa, scale),
            None => None,
        }
    }

    /// `self / other`, or `None` where the divisor is rejected or the quotient
    /// has no representation.
    pub fn checked_div(&self, other: &Amount) -> (r: Option<Amount>)
        ensures
            r == self.divided_by(*other),
    {
        proof {
            use_type_invariant(self);
            use_type_invariant(other);
        }
        match decimal_checked_div(self.mantissa, self.scale, other.mantissa, other.scale) {
            Some((mantissa, scale)) => Amount::new(mantissa, scale),
            None => None,
        }
    }

    /// `self - other`, or `None` where the difference has no representation.
    pub fn checked_sub(&self, other: &Amount) -> (r: Option<Amount>)
        ensures
            r == self.minus(*other),
    {
        proof {
            use_type_invariant(self);
            use_type_invariant(other);
        }
        match decimal_checked_sub(self.mantissa, self.scale, other.mantissa, other.scale) {
            Some((mantissa, scale)) => Amount::new(mantissa, scale),
            None => None,
        }
    }
}

} // verus!
