//! `i32` as a fixed-width integer.

use crate::width::{lemma_truncated_division, FixedWidth, Primitive};
use vstd::prelude::*;

verus! {

/// `i32` read as a mathematical integer; its bitwise operations are the operators of the type.
impl FixedWidth for i32 {
    open spec fn value(self) -> int {
        self as int
    }

    open spec fn lowest() -> int {
        i32::MIN as int
    }

    open spec fn highest() -> int {
        i32::MAX as int
    }

    open spec fn bits() -> int {
        i32::BITS as int
    }

    open spec fn from_value(v: int) -> i32 {
        v as i32
    }

    open spec fn complement(self) -> i32 {
        !self
    }

    open spec fn bit_and(self, rhs: i32) -> i32 {
        self & rhs
    }

    open spec fn bit_or(self, rhs: i32) -> i32 {
        self | rhs
    }

    open spec fn bit_xor(self, rhs: i32) -> i32 {
        self ^ rhs
    }

    open spec fn shifted_left(self, n: u32) -> i32 {
        self << n
    }

    open spec fn shifted_right(self, n: u32) -> i32 {
        self >> n
    }

    proof fn lemma_value_in_range(self) {
    }

    proof fn lemma_from_value(v: int) {
    }

    proof fn lemma_value_injective(self, other: i32) {
    }
}

/// The primitives of `i32`, each shown to return what the model says.
impl Primitive for i32 {
    fn checked_add(self, rhs: i32) -> (r: Option<i32>) {
        i32::checked_add(self, rhs)
    }

    fn checked_sub(self, rhs: i32) -> (r: Option<i32>) {
        i32::checked_sub(self, rhs)
    }

    fn checked_mul(self, rhs: i32) -> (r: Option<i32>) {
        i32::checked_mul(self, rhs)
    }

    fn checked_div(self, rhs: i32) -> (r: Option<i32>) {
        proof {
            if rhs != 0 {
                lemma_truncated_division(self as int, rhs as int);
            }
        }
        i32::checked_div(self, rhs)
    }

    fn checked_rem(self, rhs: i32) -> (r: Option<i32>) {
        proof {
            if rhs != 0 {
                lemma_truncated_division(self as int, rhs as int);
            }
        }
        i32::checked_rem(self, rhs)
    }

    fn checked_neg(self) -> (r: Option<i32>) {
        if self == i32::MIN {
            None
        } else {
            Some(-self)
        }
    }

    fn checked_shl(self, n: u32) -> (r: Option<i32>) {
        if n < i32::BITS {
            Some(self << n)
        } else {
            None
        }
    }

    fn checked_shr(self, n: u32) -> (r: Option<i32>) {
        if n < i32::BITS {
            Some(self >> n)
        } else {
            None
        }
    }

    fn widen(self) -> (r: i128) {
        self as i128
    }

    fn not_bits(self) -> (r: i32) {
        !self
    }

    fn and_bits(self, rhs: i32) -> (r: i32) {
        self & rhs
    }

    fn or_bits(self, rhs: i32) -> (r: i32) {
        self | rhs
    }

    fn xor_bits(self, rhs: i32) -> (r: i32) {
        self ^ rhs
    }
}

} // verus!
