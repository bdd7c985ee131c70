//! What an integer type must offer so that an integer input can edit it.

use vstd::prelude::*;
use super::decimal::int_text;

verus! {

/// `v` held within the closed range `[lo, hi]`.
pub open spec fn clamp_int(v: int, lo: int, hi: int) -> int {
    if v < lo {
        lo
    } else if v > hi {
        hi
    } else {
        v
    }
}

/// The quotient of `a` by a positive `b`, rounded toward zero.
pub open spec fn truncating_div(a: int, b: int) -> int
    recommends
        b > 0,
{
    if a >= 0 {
        a / b
    } else {
        -((-a) / b)
    }
}

/// A bounded integer type: a range of integers with saturating arithmetic,
/// an order, small constants and a decimal text.
pub trait InputInt: Copy + Sized {
    /// The integer that `self` stands for.
    spec fn as_int(self) -> int;

    /// The least value of the type.
    spec fn min_int() -> int;

    /// The greatest value of the type.
    spec fn max_int() -> int;

    /// The type holds at least the range `0..=127`.
    proof fn lemma_range()
        ensures
            Self::min_int() <= 0,
            127 <= Self::max_int(),
    ;

    /// Every value lies within the type's bounds.
    proof fn lemma_bounded(self)
        ensures
            Self::min_int() <= self.as_int() <= Self::max_int(),
    ;

    fn min_value() -> (least: Self)
        ensures
            least.as_int() == Self::min_int(),
    ;

    fn max_value() -> (greatest: Self)
        ensures
            greatest.as_int() == Self::max_int(),
    ;

    /// The value `n`, if the type holds it.
    fn from_u32(n: u32) -> (made: Option<Self>)
        ensures
            made is Some <==> n <= Self::max_int(),
            made matches Some(value) ==> value.as_int() == n,
    ;

    /// `self + v`, held within the type's bounds.
    fn saturating_add(&self, v: &Self) -> (sum: Self)
        ensures
            sum.as_int() == clamp_int(
                self.as_int() + v.as_int(),
                Self::min_int(),
                Self::max_int(),
            ),
    ;

    /// `self - v`, held within the type's bounds.
    fn saturating_sub(&self, v: &Self) -> (difference: Self)
        ensures
            difference.as_int() == clamp_int(
                self.as_int() - v.as_int(),
                Self::min_int(),
                Self::max_int(),
            ),
    ;

    /// `self * v`, held within the type's bounds.
    fn saturating_mul(&self, v: &Self) -> (product: Self)
        ensures
            product.as_int() == clamp_int(
                self.as_int() * v.as_int(),
                Self::min_int(),
                Self::max_int(),
            ),
    ;

    /// `self / divisor` for a positive divisor, rounded toward zero.
    fn quotient(&self, divisor: &Self) -> (q: Self)
        requires
            divisor.as_int() > 0,
        ensures
            q.as_int() == truncating_div(self.as_int(), divisor.as_int()),
    ;

    fn less_than(&self, other: &Self) -> (less: bool)
        ensures
            less == (self.as_int() < other.as_int()),
    ;

    fn equals(&self, other: &Self) -> (equal: bool)
        ensures
            equal == (self.as_int() == other.as_int()),
    ;

    /// The value as decimal text, with a minus sign if it is negative.
    fn to_text(&self) -> (text: String)
        ensures
            text@ == int_text(self.as_int()),
    ;
}

/// The value zero of an integer type.
pub fn zero<T: InputInt>() -> (zero: T)
    ensures
        zero.as_int() == 0,
{
    proof {
        T::lemma_range();
    }
    T::from_u32(0).unwrap()
}

/// The value one of an integer type.
pub fn one<T: InputInt>() -> (one: T)
    ensures
        one.as_int() == 1,
{
    proof {
        T::lemma_range();
    }
    T::from_u32(1).unwrap()
}

/// The value ten of an integer type.
pub fn ten<T: InputInt>() -> (ten: T)
    ensures
        ten.as_int() == 10,
{
    proof {
        T::lemma_range();
    }
    T::from_u32(10).unwrap()
}

/// `value` held within `[min, max]`.
pub fn clamp<T: InputInt>(value: T, min: T, max: T) -> (held: T)
    requires
        min.as_int() <= max.as_int(),
    ensures
        held.as_int() == clamp_int(value.as_int(), min.as_int(), max.as_int()),
{
    if value.less_than(&min) {
        min
    } else if max.less_than(&value) {
        max
    } else {
        value
    }
}

/// A bounded integer type with negative values.
pub trait InputSignedInt: InputInt {
    /// There is one more negative value than there are positive ones.
    proof fn lemma_signed_range()
        ensures
            Self::min_int() + Self::max_int() == -1,
    ;

    fn is_negative(&self) -> (negative: bool)
        ensures
            negative == (self.as_int() < 0),
    ;
}

/// A bounded integer type without negative values.
pub trait InputUnsignedInt: InputInt {
    /// The least value is zero.
    proof fn lemma_unsigned_range()
        ensures
            Self::min_int() == 0,
    ;
}

} // verus!
