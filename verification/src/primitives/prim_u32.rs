//! `u32` as a fixed-width integer.

use crate::width::{FixedWidth, Primitive};
use vstd::prelude::*;

verus! {

/// `u32` read as a mathematical integer; its bitwise operations are the operators of the type.
impl FixedWidth for u32 {
    open spec fn value(self) -> int {
        self as int
    }

    open spec fn lowest() -> int {
        u32::MIN as int
    }

    open spec fn highest() -> int {
        u32::MAX as int
    }

    open spec fn bits() -> int {
        u32::BITS as int
    }

    open spec fn from_value(v: int) -> u32 {
        v as u32
    }

    open spec fn complement(self) -> u32 {
        !self
    }

    open spec fn bit_and(self, rhs: u32) -> u32 {
        self & rhs
    }

    open spec fn bit_or(self, rhs: u32) -> u32 {
        self | rhs
    }

    open spec fn bit_xor(self, rhs: u32) -> u32 {
        self ^ rhs
    }

    open spec fn shifted_left(self, n: u32) -> u32 {
        self << n
    }

    open spec fn shifted_right(self, n: u32) -> u32 {
        self >> n
    }

    proof fn lemma_value_in_range(self) {
    }

    proof fn lemma_from_value(v: int) {
    }

    proof fn lemma_value_injective(self, other: u32) {
    }
}

/// The primitives of `u32`, each shown to return what the model says.
impl Primitive for u32 {
    fn checked_add(self, rhs: u32) -> (r: Option<u32>) {
        u32::checked_add(self, rhs)
    }

    fn checked_sub(self, rhs: u32) -> (r: Option<u32>) {
        u32::checked_sub(self, rhs)
    }

    fn checked_mul(self, rhs: u32) -> (r: Option<u32>) {
        u32::checked_mul(self, rhs)
    }

    fn checked_div(self, rhs: u32) -> (r: Option<u32>) {
        u32::checked_div(self, rhs)
    }

    fn checked_rem(self, rhs: u32) -> (r: Option<u32>) {
        u32::checked_rem(self, rhs)
    }

    fn checked_neg(self) -> (r: Option<u32>) {
        if self == 0 {
            Some(0)
        } else {
            None
        }
    }

    fn checked_shl(self, n: u32) -> (r: Option<u32>) {
        if n < u32::BITS {
            Some(self << n)
        } else {
            None
        }
    }

    fn checked_shr(self, n: u32) -> (r: Option<u32>) {
        if n < u32::BITS {
            Some(self >> n)
        } else {
            None
        }
    }

    fn widen(self) -> (r: i128) {
        self as i128
    }

    fn not_bits(self) -> (r: u32) {
        !self
    }

    fn and_bits(self, rhs: u32) -> (r: u32) {
        self & rhs
    }

    fn or_bits(self, rhs: u32) -> (r: u32) {
        self | rhs
    }

    fn xor_bits(self, rhs: u32) -> (r: u32) {
        self ^ rhs
    }
}

} // verus!
