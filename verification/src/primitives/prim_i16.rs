//! `i16` as a fixed-width integer.

use crate::width::{lemma_truncated_division, FixedWidth, Primitive};
use vstd::prelude::*;

verus! {

/// `i16` read as a mathematical integer; its bitwise operations are the operators of the type.
impl FixedWidth for i16 {
    open spec fn value(self) -> int {
        self as int
    }

    open spec fn lowest() -> int {
        i16::MIN as int
    }

    open spec fn highest() -> int {
        i16::MAX as int
    }

    open spec fn bits() -> int {
        i16::BITS as int
    }

    open spec fn from_value(v: int) -> i16 {
        v as i16
    }

    open spec fn complement(self) -> i16 {
        !self
    }

    open spec fn bit_and(self, rhs: i16) -> i16 {
        self & rhs
    }

    open spec fn bit_or(self, rhs: i16) -> i16 {
        self | rhs
    }

    open spec fn bit_xor(self, rhs: i16) -> i16 {
        self ^ rhs
    }

    open spec fn shifted_left(self, n: u32) -> i16 {
        self << n
    }

    open spec fn shifted_right(self, n: u32) -> i16 {
        self >> n
    }

    proof fn lemma_value_in_range(self) {
    }

    proof fn lemma_from_value(v: int) {
    }

    proof fn lemma_value_injective(self, other: i16) {
    }
}

/// The primitives of `i16`, each shown to return what the model says.
impl Primitive for i16 {
    fn checked_add(self, rhs: i16) -> (r: Option<i16>) {
        i16::checked_add(self, rhs)
    }

    fn checked_sub(self, rhs: i16) -> (r: Option<i16>) {
        i16::checked_sub(self, rhs)
    }

    fn checked_mul(self, rhs: i16) -> (r: Option<i16>) {
        i16::checked_mul(self, rhs)
    }

    fn checked_div(self, rhs: i16) -> (r: Option<i16>) {
        proof {
            if rhs != 0 {
                lemma_truncated_division(self as int, rhs as int);
            }
        }
        i16::checked_div(self, rhs)
    }

    fn checked_rem(self, rhs: i16) -> (r: Option<i16>) {
        proof {
            if rhs != 0 {
                lemma_truncated_division(self as int, rhs as int);
            }
        }
        i16::checked_rem(self, rhs)
    }

    fn checked_neg(self) -> (r: Option<i16>) {
        if self == i16::MIN {
            None
        } else {
            Some(-self)
        }
    }

    fn checked_shl(self, n: u32) -> (r: Option<i16>) {
        if n < i16::BITS {
            Some(self << n)
        } else {
            None
        }
    }

    fn checked_shr(self, n: u32) -> (r: Option<i16>) {
        if n < i16::BITS {
            Some(self >> n)
        } else {
            None
        }
    }

    fn widen(self) -> (r: i128) {
        self as i128
    }

    fn not_bits(self) -> (r: i16) {
        !self
    }

    fn and_bits(self, rhs: i16) -> (r: i16) {
        self & rhs
    }

    fn or_bits(self, rhs: i16) -> (r: i16) {
        self | rhs
    }

    fn xor_bits(self, rhs: i16) -> (r: i16) {
        self ^ rhs
    }
}

} // verus!
