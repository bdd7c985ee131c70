//! The unsigned integer types of the language as editable integers.

use vstd::prelude::*;
use super::bounded::{InputInt, InputUnsignedInt};
use super::decimal::unsigned_text;

verus! {

impl InputInt for u8 {
    open spec fn as_int(self) -> int {
        self as int
    }

    open spec fn min_int() -> int {
        u8::MIN as int
    }

    open spec fn max_int() -> int {
        u8::MAX as int
    }

    proof fn lemma_range() {
    }

    proof fn lemma_bounded(self) {
    }

    fn min_value() -> (least: u8) {
        u8::MIN
    }

    fn max_value() -> (greatest: u8) {
        u8::MAX
    }

    fn from_u32(n: u32) -> (made: Option<u8>) {
        if n <= 0xff {
            Some(n as u8)
        } else {
            None
        }
    }

    fn saturating_add(&self, v: &u8) -> (sum: u8) {
        u8::saturating_add(*self, *v)
    }

    fn saturating_sub(&self, v: &u8) -> (difference: u8) {
        u8::saturating_sub(*self, *v)
    }

    fn saturating_mul(&self, v: &u8) -> (product: u8) {
        match u8::checked_mul(*self, *v) {
            Some(product) => product,
            None => u8::MAX,
        }
    }

    fn quotient(&self, divisor: &u8) -> (q: u8) {
        *self / *divisor
    }

    fn less_than(&self, other: &u8) -> (less: bool) {
        *self < *other
    }

    fn equals(&self, other: &u8) -> (equal: bool) {
        *self == *other
    }

    fn to_text(&self) -> (text: String) {
        unsigned_text(*self as u128)
    }
}

impl InputUnsignedInt for u8 {
    proof fn lemma_unsigned_range() {
    }
}

impl InputInt for u16 {
    open spec fn as_int(self) -> int {
        self as int
    }

    open spec fn min_int() -> int {
        u16::MIN as int
    }

    open spec fn max_int() -> int {
        u16::MAX as int
    }

    proof fn lemma_range() {
    }

    proof fn lemma_bounded(self) {
    }

    fn min_value() -> (least: u16) {
        u16::MIN
    }

    fn max_value() -> (greatest: u16) {
        u16::MAX
    }

    fn from_u32(n: u32) -> (made: Option<u16>) {
        if n <= 0xffff {
            Some(n as u16)
        } else {
            None
        }
    }

    fn saturating_add(&self, v: &u16) -> (sum: u16) {
        u16::saturating_add(*self, *v)
    }

    fn saturating_sub(&self, v: &u16) -> (difference: u16) {
        u16::saturating_sub(*self, *v)
    }

    fn saturating_mul(&self, v: &u16) -> (product: u16) {
        match u16::checked_mul(*self, *v) {
            Some(product) => product,
            None => u16::MAX,
        }
    }

    fn quotient(&self, divisor: &u16) -> (q: u16) {
        *self / *divisor
    }

    fn less_than(&self, other: &u16) -> (less: bool) {
        *self < *other
    }

    fn equals(&self, other: &u16) -> (equal: bool) {
        *self == *other
    }

    fn to_text(&self) -> (text: String) {
        unsigned_text(*self as u128)
    }
}

impl InputUnsignedInt for u16 {
    proof fn lemma_unsigned_range() {
    }
}

impl InputInt for u32 {
    open spec fn as_int(self) -> int {
        self as int
    }

    open spec fn min_int() -> int {
        u32::MIN as int
    }

    open spec fn max_int() -> int {
        u32::MAX as int
    }

    proof fn lemma_range() {
    }

    proof fn lemma_bounded(self) {
    }

    fn min_value() -> (least: u32) {
        u32::MIN
    }

    fn max_value() -> (greatest: u32) {
        u32::MAX
    }

    fn from_u32(n: u32) -> (made: Option<u32>) {
        Some(n)
    }

    fn saturating_add(&self, v: &u32) -> (sum: u32) {
        u32::saturating_add(*self, *v)
    }

    fn saturating_sub(&self, v: &u32) -> (difference: u32) {
        u32::saturating_sub(*self, *v)
    }

    fn saturating_mul(&self, v: &u32) -> (product: u32) {
        match u32::checked_mul(*self, *v) {
            Some(product) => product,
            None => u32::MAX,
        }
    }

    fn quotient(&self, divisor: &u32) -> (q: u32) {
        *self / *divisor
    }

    fn less_than(&self, other: &u32) -> (less: bool) {
        *self < *other
    }

    fn equals(&self, other: &u32) -> (equal: bool) {
        *self == *other
    }

    fn to_text(&self) -> (text: String) {
        unsigned_text(*self as u128)
    }
}

impl InputUnsignedInt for u32 {
    proof fn lemma_unsigned_range() {
    }
}

impl InputInt for u64 {
    open spec fn as_int(self) -> int {
        self as int
    }

    open spec fn min_int() -> int {
        u64::MIN as int
    }

    open spec fn max_int() -> int {
        u64::MAX as int
    }

    proof fn lemma_range() {
    }

    proof fn lemma_bounded(self) {
    }

    fn min_value() -> (least: u64) {
        u64::MIN
    }

    fn max_value() -> (greatest: u64) {
        u64::MAX
    }

    fn from_u32(n: u32) -> (made: Option<u64>) {
        Some(n as u64)
    }

    fn saturating_add(&self, v: &u64) -> (sum: u64) {
        u64::saturating_add(*self, *v)
    }

    fn saturating_sub(&self, v: &u64) -> (difference: u64) {
        u64::saturating_sub(*self, *v)
    }

    fn saturating_mul(&self, v: &u64) -> (product: u64) {
        match u64::checked_mul(*self, *v) {
            Some(product) => product,
            None => u64::MAX,
        }
    }

    fn quotient(&self, divisor: &u64) -> (q: u64) {
        *self / *divisor
    }

    fn less_than(&self, other: &u64) -> (less: bool) {
        *self < *other
    }

    fn equals(&self, other: &u64) -> (equal: bool) {
        *self == *other
    }

    fn to_text(&self) -> (text: String) {
        unsigned_text(*self as u128)
    }
}

impl InputUnsignedInt for u64 {
    proof fn lemma_unsigned_range() {
    }
}

impl InputInt for u128 {
    open spec fn as_int(self) -> int {
        self as int
    }

    open spec fn min_int() -> int {
        u128::MIN as int
    }

    open spec fn max_int() -> int {
        u128::MAX as int
    }

    proof fn lemma_range() {
    }

    proof fn lemma_bounded(self) {
    }

    fn min_value() -> (least: u128) {
        u128::MIN
    }

    fn max_value() -> (greatest: u128) {
        u128::MAX
    }

    fn from_u32(n: u32) -> (made: Option<u128>) {
        Some(n as u128)
    }

    fn saturating_add(&self, v: &u128) -> (sum: u128) {
        u128::saturating_add(*self, *v)
    }

    fn saturating_sub(&self, v: &u128) -> (difference: u128) {
        u128::saturating_sub(*self, *v)
    }

    fn saturating_mul(&self, v: &u128) -> (product: u128) {
        match u128::checked_mul(*self, *v) {
            Some(product) => product,
            None => u128::MAX,
        }
    }

    fn quotient(&self, divisor: &u128) -> (q: u128) {
        *self / *divisor
    }

    fn less_than(&self, other: &u128) -> (less: bool) {
        *self < *other
    }

    fn equals(&self, other: &u128) -> (equal: bool) {
        *self == *other
    }

    fn to_text(&self) -> (text: String) {
        unsigned_text(*self as u128)
    }
}

impl InputUnsignedInt for u128 {
    proof fn lemma_unsigned_range() {
    }
}

impl InputInt for usize {
    open spec fn as_int(self) -> int {
        self as int
    }

    open spec fn min_int() -> int {
        usize::MIN as int
    }

    open spec fn max_int() -> int {
        usize::MAX as int
    }

    proof fn lemma_range() {
    }

    proof fn lemma_bounded(self) {
    }

    fn min_value() -> (least: usize) {
        usize::MIN
    }

    fn max_value() -> (greatest: usize) {
        usize::MAX
    }

    fn from_u32(n: u32) -> (made: Option<usize>) {
        Some(n as usize)
    }

    fn saturating_add(&self, v: &usize) -> (sum: usize) {
        usize::saturating_add(*self, *v)
    }

    fn saturating_sub(&self, v: &usize) -> (difference: usize) {
        usize::saturating_sub(*self, *v)
    }

    fn saturating_mul(&self, v: &usize) -> (product: usize) {
        match usize::checked_mul(*self, *v) {
            Some(product) => product,
            None => usize::MAX,
        }
    }

    fn quotient(&self, divisor: &usize) -> (q: usize) {
        *self / *divisor
    }

    fn less_than(&self, other: &usize) -> (less: bool) {
        *self < *other
    }

    fn equals(&self, other: &usize) -> (equal: bool) {
        *self == *other
    }

    fn to_text(&self) -> (text: String) {
        unsigned_text(*self as u128)
    }
}

impl InputUnsignedInt for usize {
    proof fn lemma_unsigned_range() {
    }
}

} // verus!
