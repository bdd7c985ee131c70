//! The signed integer types of the language as editable integers.

use vstd::prelude::*;
use super::bounded::{InputInt, InputSignedInt};
use super::decimal::signed_text;

verus! {

/// A product of two factors of one sign is not negative, and a product of
/// two factors of different signs is not positive.
proof fn lemma_product_sign(a: int, b: int)
    ensures
        (a < 0) == (b < 0) ==> a * b >= 0,
        (a < 0) != (b < 0) ==> a * b <= 0,
{
    assert((a < 0) == (b < 0) ==> a * b >= 0) by (nonlinear_arith);
    assert((a < 0) != (b < 0) ==> a * b <= 0) by (nonlinear_arith);
}

impl InputInt for i8 {
    open spec fn as_int(self) -> int {
        self as int
    }

    open spec fn min_int() -> int {
        i8::MIN as int
    }

    open spec fn max_int() -> int {
        i8::MAX as int
    }

    proof fn lemma_range() {
    }

    proof fn lemma_bounded(self) {
    }

    fn min_value() -> (least: i8) {
        i8::MIN
    }

    fn max_value() -> (greatest: i8) {
        i8::MAX
    }

    fn from_u32(n: u32) -> (made: Option<i8>) {
        if n <= 0x7f {
            Some(n as i8)
        } else {
            None
        }
    }

    fn saturating_add(&self, v: &i8) -> (sum: i8) {
        match i8::checked_add(*self, *v) {
            Some(sum) => sum,
            None => if *v < 0 {
                i8::MIN
            } else {
                i8::MAX
            },
        }
    }

    fn saturating_sub(&self, v: &i8) -> (difference: i8) {
        match i8::checked_sub(*self, *v) {
            Some(difference) => difference,
            None => if *v < 0 {
                i8::MAX
            } else {
                i8::MIN
            },
        }
    }

    fn saturating_mul(&self, v: &i8) -> (product: i8) {
        let a: i8 = *self;
        let b: i8 = *v;
        match i8::checked_mul(a, b) {
            Some(product) => product,
            None => {
                proof {
                    lemma_product_sign(a as int, b as int);
                }
                if (a < 0) == (b < 0) {
                    i8::MAX
                } else {
                    i8::MIN
                }
            },
        }
    }

    fn quotient(&self, divisor: &i8) -> (q: i8) {
        *self / *divisor
    }

    fn less_than(&self, other: &i8) -> (less: bool) {
        *self < *other
    }

    fn equals(&self, other: &i8) -> (equal: bool) {
        *self == *other
    }

    fn to_text(&self) -> (text: String) {
        signed_text(*self as i128)
    }
}

impl InputSignedInt for i8 {
    proof fn lemma_signed_range() {
    }

    fn is_negative(&self) -> (negative: bool) {
        *self < 0
    }
}

impl InputInt for i16 {
    open spec fn as_int(self) -> int {
        self as int
    }

    open spec fn min_int() -> int {
        i16::MIN as int
    }

    open spec fn max_int() -> int {
        i16::MAX as int
    }

    proof fn lemma_range() {
    }

    proof fn lemma_bounded(self) {
    }

    fn min_value() -> (least: i16) {
        i16::MIN
    }

    fn max_value() -> (greatest: i16) {
        i16::MAX
    }

    fn from_u32(n: u32) -> (made: Option<i16>) {
        if n <= 0x7fff {
            Some(n as i16)
        } else {
            None
        }
    }

    fn saturating_add(&self, v: &i16) -> (sum: i16) {
        match i16::checked_add(*self, *v) {
            Some(sum) => sum,
            None => if *v < 0 {
                i16::MIN
            } else {
                i16::MAX
            },
        }
    }

    fn saturating_sub(&self, v: &i16) -> (difference: i16) {
        match i16::checked_sub(*self, *v) {
            Some(difference) => difference,
            None => if *v < 0 {
                i16::MAX
            } else {
                i16::MIN
            },
        }
    }

    fn saturating_mul(&self, v: &i16) -> (product: i16) {
        let a: i16 = *self;
        let b: i16 = *v;
        match i16::checked_mul(a, b) {
            Some(product) => product,
            None => {
                proof {
                    lemma_product_sign(a as int, b as int);
                }
                if (a < 0) == (b < 0) {
                    i16::MAX
                } else {
                    i16::MIN
                }
            },
        }
    }

    fn quotient(&self, divisor: &i16) -> (q: i16) {
        *self / *divisor
    }

    fn less_than(&self, other: &i16) -> (less: bool) {
        *self < *other
    }

    fn equals(&self, other: &i16) -> (equal: bool) {
        *self == *other
    }

    fn to_text(&self) -> (text: String) {
        signed_text(*self as i128)
    }
}

impl InputSignedInt for i16 {
    proof fn lemma_signed_range() {
    }

    fn is_negative(&self) -> (negative: bool) {
        *self < 0
    }
}

impl InputInt for i32 {
    open spec fn as_int(self) -> int {
        self as int
    }

    open spec fn min_int() -> int {
        i32::MIN as int
    }

    open spec fn max_int() -> int {
        i32::MAX as int
    }

    proof fn lemma_range() {
    }

    proof fn lemma_bounded(self) {
    }

    fn min_value() -> (least: i32) {
        i32::MIN
    }

    fn max_value() -> (greatest: i32) {
        i32::MAX
    }

    fn from_u32(n: u32) -> (made: Option<i32>) {
        if n <= 0x7fff_ffff {
            Some(n as i32)
        } else {
            None
        }
    }

    fn saturating_add(&self, v: &i32) -> (sum: i32) {
        match i32::checked_add(*self, *v) {
            Some(sum) => sum,
            None => if *v < 0 {
                i32::MIN
            } else {
                i32::MAX
            },
        }
    }

    fn saturating_sub(&self, v: &i32) -> (difference: i32) {
        match i32::checked_sub(*self, *v) {
            Some(difference) => difference,
            None => if *v < 0 {
                i32::MAX
            } else {
                i32::MIN
            },
        }
    }

    fn saturating_mul(&self, v: &i32) -> (product: i32) {
        let a: i32 = *self;
        let b: i32 = *v;
        match i32::checked_mul(a, b) {
            Some(product) => product,
            None => {
                proof {
                    lemma_product_sign(a as int, b as int);
                }
                if (a < 0) == (b < 0) {
                    i32::MAX
                } else {
                    i32::MIN
                }
            },
        }
    }

    fn quotient(&self, divisor: &i32) -> (q: i32) {
        *self / *divisor
    }

    fn less_than(&self, other: &i32) -> (less: bool) {
        *self < *other
    }

    fn equals(&self, other: &i32) -> (equal: bool) {
        *self == *other
    }

    fn to_text(&self) -> (text: String) {
        signed_text(*self as i128)
    }
}

impl InputSignedInt for i32 {
    proof fn lemma_signed_range() {
    }

    fn is_negative(&self) -> (negative: bool) {
        *self < 0
    }
}

impl InputInt for i64 {
    open spec fn as_int(self) -> int {
        self as int
    }

    open spec fn min_int() -> int {
        i64::MIN as int
    }

    open spec fn max_int() -> int {
        i64::MAX as int
    }

    proof fn lemma_range() {
    }

    proof fn lemma_bounded(self) {
    }

    fn min_value() -> (least: i64) {
        i64::MIN
    }

    fn max_value() -> (greatest: i64) {
        i64::MAX
    }

    fn from_u32(n: u32) -> (made: Option<i64>) {
        Some(n as i64)
    }

    fn saturating_add(&self, v: &i64) -> (sum: i64) {
        match i64::checked_add(*self, *v) {
            Some(sum) => sum,
            None => if *v < 0 {
                i64::MIN
            } else {
                i64::MAX
            },
        }
    }

    fn saturating_sub(&self, v: &i64) -> (difference: i64) {
        match i64::checked_sub(*self, *v) {
            Some(difference) => difference,
            None => if *v < 0 {
                i64::MAX
            } else {
                i64::MIN
            },
        }
    }

    fn saturating_mul(&self, v: &i64) -> (product: i64) {
        let a: i64 = *self;
        let b: i64 = *v;
        match i64::checked_mul(a, b) {
            Some(product) => product,
            None => {
                proof {
                    lemma_product_sign(a as int, b as int);
                }
                if (a < 0) == (b < 0) {
                    i64::MAX
                } else {
                    i64::MIN
                }
            },
        }
    }

    fn quotient(&self, divisor: &i64) -> (q: i64) {
        *self / *divisor
    }

    fn less_than(&self, other: &i64) -> (less: bool) {
        *self < *other
    }

    fn equals(&self, other: &i64) -> (equal: bool) {
        *self == *other
    }

    fn to_text(&self) -> (text: String) {
        signed_text(*self as i128)
    }
}

impl InputSignedInt for i64 {
    proof fn lemma_signed_range() {
    }

    fn is_negative(&self) -> (negative: bool) {
        *self < 0
    }
}

impl InputInt for i128 {
    open spec fn as_int(self) -> int {
        self as int
    }

    open spec fn min_int() -> int {
        i128::MIN as int
    }

    open spec fn max_int() -> int {
        i128::MAX as int
    }

    proof fn lemma_range() {
    }

    proof fn lemma_bounded(self) {
    }

    fn min_value() -> (least: i128) {
        i128::MIN
    }

    fn max_value() -> (greatest: i128) {
        i128::MAX
    }

    fn from_u32(n: u32) -> (made: Option<i128>) {
        Some(n as i128)
    }

    fn saturating_add(&self, v: &i128) -> (sum: i128) {
        match i128::checked_add(*self, *v) {
            Some(sum) => sum,
            None => if *v < 0 {
                i128::MIN
            } else {
                i128::MAX
            },
        }
    }

    fn saturating_sub(&self, v: &i128) -> (difference: i128) {
        match i128::checked_sub(*self, *v) {
            Some(difference) => difference,
            None => if *v < 0 {
                i128::MAX
            } else {
                i128::MIN
            },
        }
    }

    fn saturating_mul(&self, v: &i128) -> (product: i128) {
        let a: i128 = *self;
        let b: i128 = *v;
        match i128::checked_mul(a, b) {
            Some(product) => product,
            None => {
                proof {
                    lemma_product_sign(a as int, b as int);
                }
                if (a < 0) == (b < 0) {
                    i128::MAX
                } else {
                    i128::MIN
                }
            },
        }
    }

    fn quotient(&self, divisor: &i128) -> (q: i128) {
        *self / *divisor
    }

    fn less_than(&self, other: &i128) -> (less: bool) {
        *self < *other
    }

    fn equals(&self, other: &i128) -> (equal: bool) {
        *self == *other
    }

    fn to_text(&self) -> (text: String) {
        signed_text(*self as i128)
    }
}

impl InputSignedInt for i128 {
    proof fn lemma_signed_range() {
    }

    fn is_negative(&self) -> (negative: bool) {
        *self < 0
    }
}

impl InputInt for isize {
    open spec fn as_int(self) -> int {
        self as int
    }

    open spec fn min_int() -> int {
        isize::MIN as int
    }

    open spec fn max_int() -> int {
        isize::MAX as int
    }

    proof fn lemma_range() {
    }

    proof fn lemma_bounded(self) {
    }

    fn min_value() -> (least: isize) {
        isize::MIN
    }

    fn max_value() -> (greatest: isize) {
        isize::MAX
    }

    fn from_u32(n: u32) -> (made: Option<isize>) {
        if n as u128 <= isize::MAX as u128 {
            Some(n as isize)
        } else {
            None
        }
    }

    fn saturating_add(&self, v: &isize) -> (sum: isize) {
        match isize::checked_add(*self, *v) {
            Some(sum) => sum,
            None => if *v < 0 {
                isize::MIN
            } else {
                isize::MAX
            },
        }
    }

    fn saturating_sub(&self, v: &isize) -> (difference: isize) {
        match isize::checked_sub(*self, *v) {
            Some(difference) => difference,
            None => if *v < 0 {
                isize::MAX
            } else {
                isize::MIN
            },
        }
    }

    fn saturating_mul(&self, v: &isize) -> (product: isize) {
        let a: isize = *self;
        let b: isize = *v;
        match isize::checked_mul(a, b) {
            Some(product) => product,
            None => {
                proof {
                    lemma_product_sign(a as int, b as int);
                }
                if (a < 0) == (b < 0) {
                    isize::MAX
                } else {
                    isize::MIN
                }
            },
        }
    }

    fn quotient(&self, divisor: &isize) -> (q: isize) {
        *self / *divisor
    }

    fn less_than(&self, other: &isize) -> (less: bool) {
        *self < *other
    }

    fn equals(&self, other: &isize) -> (equal: bool) {
        *self == *other
    }

    fn to_text(&self) -> (text: String) {
        signed_text(*self as i128)
    }
}

impl InputSignedInt for isize {
    proof fn lemma_signed_range() {
    }

    fn is_negative(&self) -> (negative: bool) {
        *self < 0
    }
}

} // verus!
