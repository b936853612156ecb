//! `u16` as a fixed-width integer.

use crate::width::{FixedWidth, Primitive};
use vstd::prelude::*;

verus! {

/// `u16` read as a mathematical integer; its bitwise operations are the operators of the type.
impl FixedWidth for u16 {
    open spec fn value(self) -> int {
        self as int
    }

    open spec fn lowest() -> int {
        u16::MIN as int
    }

    open spec fn highest() -> int {
        u16::MAX as int
    }

    open spec fn bits() -> int {
        u16::BITS as int
    }

    open spec fn from_value(v: int) -> u16 {
        v as u16
    }

    open spec fn complement(self) -> u16 {
        !self
    }

    open spec fn bit_and(self, rhs: u16) -> u16 {
        self & rhs
    }

    open spec fn bit_or(self, rhs: u16) -> u16 {
        self | rhs
    }

    open spec fn bit_xor(self, rhs: u16) -> u16 {
        self ^ rhs
    }

    open spec fn shifted_left(self, n: u32) -> u16 {
        self << n
    }

    open spec fn shifted_right(self, n: u32) -> u16 {
        self >> n
    }

    proof fn lemma_value_in_range(self) {
    }

    proof fn lemma_from_value(v: int) {
    }

    proof fn lemma_value_injective(self, other: u16) {
    }
}

/// The primitives of `u16`, each shown to return what the model says.
impl Primitive for u16 {
    fn checked_add(self, rhs: u16) -> (r: Option<u16>) {
        u16::checked_add(self, rhs)
    }

    fn checked_sub(self, rhs: u16) -> (r: Option<u16>) {
        u16::checked_sub(self, rhs)
    }

    fn checked_mul(self, rhs: u16) -> (r: Option<u16>) {
        u16::checked_mul(self, rhs)
    }

    fn checked_div(self, rhs: u16) -> (r: Option<u16>) {
        u16::checked_div(self, rhs)
    }

    fn checked_rem(self, rhs: u16) -> (r: Option<u16>) {
        u16::checked_rem(self, rhs)
    }

    fn checked_neg(self) -> (r: Option<u16>) {
        if self == 0 {
            Some(0)
        } else {
            None
        }
    }

    fn checked_shl(self, n: u32) -> (r: Option<u16>) {
        if n < u16::BITS {
            Some(self << n)
        } else {
            None
        }
    }

    fn checked_shr(self, n: u32) -> (r: Option<u16>) {
        if n < u16::BITS {
            Some(self >> n)
        } else {
            None
        }
    }

    fn widen(self) -> (r: i128) {
        self as i128
    }

    fn not_bits(self) -> (r: u16) {
        !self
    }

    fn and_bits(self, rhs: u16) -> (r: u16) {
        self & rhs
    }

    fn or_bits(self, rhs: u16) -> (r: u16) {
        self | rhs
    }

    fn xor_bits(self, rhs: u16) -> (r: u16) {
        self ^ rhs
    }
}

} // verus!
