//! `i64` as a fixed-width integer.

use crate::width::{lemma_truncated_division, FixedWidth, Primitive};
use vstd::prelude::*;

verus! {

/// `i64` read as a mathematical integer; its bitwise operations are the operators of the type.
impl FixedWidth for i64 {
    open spec fn value(self) -> int {
        self as int
    }

    open spec fn lowest() -> int {
        i64::MIN as int
    }

    open spec fn highest() -> int {
        i64::MAX as int
    }

    open spec fn bits() -> int {
        i64::BITS as int
    }

    open spec fn from_value(v: int) -> i64 {
        v as i64
    }

    open spec fn complement(self) -> i64 {
        !self
    }

    open spec fn bit_and(self, rhs: i64) -> i64 {
        self & rhs
    }

    open spec fn bit_or(self, rhs: i64) -> i64 {
        self | rhs
    }

    open spec fn bit_xor(self, rhs: i64) -> i64 {
        self ^ rhs
    }

    open spec fn shifted_left(self, n: u32) -> i64 {
        self << n
    }

    open spec fn shifted_right(self, n: u32) -> i64 {
        self >> n
    }

    proof fn lemma_value_in_range(self) {
    }

    proof fn lemma_from_value(v: int) {
    }

    proof fn lemma_value_injective(self, other: i64) {
    }
}

/// The primitives of `i64`, each shown to return what the model says.
impl Primitive for i64 {
    fn checked_add(self, rhs: i64) -> (r: Option<i64>) {
        i64::checked_add(self, rhs)
    }

    fn checked_sub(self, rhs: i64) -> (r: Option<i64>) {
        i64::checked_sub(self, rhs)
    }

    fn checked_mul(self, rhs: i64) -> (r: Option<i64>) {
        i64::checked_mul(self, rhs)
    }

    fn checked_div(self, rhs: i64) -> (r: Option<i64>) {
        proof {
            if rhs != 0 {
                lemma_truncated_division(self as int, rhs as int);
            }
        }
        i64::checked_div(self, rhs)
    }

    fn checked_rem(self, rhs: i64) -> (r: Option<i64>) {
        proof {
            if rhs != 0 {
                lemma_truncated_division(self as int, rhs as int);
            }
        }
        i64::checked_rem(self, rhs)
    }

    fn checked_neg(self) -> (r: Option<i64>) {
        if self == i64::MIN {
            None
        } else {
            Some(-self)
        }
    }

    fn checked_shl(self, n: u32) -> (r: Option<i64>) {
        if n < i64::BITS {
            Some(self << n)
        } else {
            None
        }
    }

    fn checked_shr(self, n: u32) -> (r: Option<i64>) {
        if n < i64::BITS {
            Some(self >> n)
        } else {
            None
        }
    }

    fn widen(self) -> (r: i128) {
        self as i128
    }

    fn not_bits(self) -> (r: i64) {
        !self
    }

    fn and_bits(self, rhs: i64) -> (r: i64) {
        self & rhs
    }

    fn or_bits(self, rhs: i64) -> (r: i64) {
        self | rhs
    }

    fn xor_bits(self, rhs: i64) -> (r: i64) {
        self ^ rhs
    }
}

} // verus!
