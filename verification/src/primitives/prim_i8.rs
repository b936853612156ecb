//! `i8` as a fixed-width integer.

use crate::width::{lemma_truncated_division, FixedWidth, Primitive};
use vstd::prelude::*;

verus! {

/// `i8` read as a mathematical integer; its bitwise operations are the operators of the type.
impl FixedWidth for i8 {
    open spec fn value(self) -> int {
        self as int
    }

    open spec fn lowest() -> int {
        i8::MIN as int
    }

    open spec fn highest() -> int {
        i8::MAX as int
    }

    open spec fn bits() -> int {
        i8::BITS as int
    }

    open spec fn from_value(v: int) -> i8 {
        v as i8
    }

    open spec fn complement(self) -> i8 {
        !self
    }

    open spec fn bit_and(self, rhs: i8) -> i8 {
        self & rhs
    }

    open spec fn bit_or(self, rhs: i8) -> i8 {
        self | rhs
    }

    open spec fn bit_xor(self, rhs: i8) -> i8 {
        self ^ rhs
    }

    open spec fn shifted_left(self, n: u32) -> i8 {
        self << n
    }

    open spec fn shifted_right(self, n: u32) -> i8 {
        self >> n
    }

    proof fn lemma_value_in_range(self) {
    }

    proof fn lemma_from_value(v: int) {
    }

    proof fn lemma_value_injective(self, other: i8) {
    }
}

/// The primitives of `i8`, each shown to return what the model says.
impl Primitive for i8 {
    fn checked_add(self, rhs: i8) -> (r: Option<i8>) {
        i8::checked_add(self, rhs)
    }

    fn checked_sub(self, rhs: i8) -> (r: Option<i8>) {
        i8::checked_sub(self, rhs)
    }

    fn checked_mul(self, rhs: i8) -> (r: Option<i8>) {
        i8::checked_mul(self, rhs)
    }

    fn checked_div(self, rhs: i8) -> (r: Option<i8>) {
        proof {
            if rhs != 0 {
                lemma_truncated_division(self as int, rhs as int);
            }
        }
        i8::checked_div(self, rhs)
    }

    fn checked_rem(self, rhs: i8) -> (r: Option<i8>) {
        proof {
            if rhs != 0 {
                lemma_truncated_division(self as int, rhs as int);
            }
        }
        i8::checked_rem(self, rhs)
    }

    fn checked_neg(self) -> (r: Option<i8>) {
        if self == i8::MIN {
            None
        } else {
            Some(-self)
        }
    }

    fn checked_shl(self, n: u32) -> (r: Option<i8>) {
        if n < i8::BITS {
            Some(self << n)
        } else {
            None
        }
    }

    fn checked_shr(self, n: u32) -> (r: Option<i8>) {
        if n < i8::BITS {
            Some(self >> n)
        } else {
            None
        }
    }

    fn widen(self) -> (r: i128) {
        self as i128
    }

    fn not_bits(self) -> (r: i8) {
        !self
    }

    fn and_bits(self, rhs: i8) -> (r: i8) {
        self & rhs
    }

    fn or_bits(self, rhs: i8) -> (r: i8) {
        self | rhs
    }

    fn xor_bits(self, rhs: i8) -> (r: i8) {
        self ^ rhs
    }
}

} // verus!
