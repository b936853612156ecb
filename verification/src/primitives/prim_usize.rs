//! `usize` as a fixed-width integer.

use crate::width::{FixedWidth, Primitive};
use vstd::prelude::*;

verus! {

/// `usize` read as a mathematical integer; its bitwise operations are the operators of the type.
impl FixedWidth for usize {
    open spec fn value(self) -> int {
        self as int
    }

    open spec fn lowest() -> int {
        usize::MIN as int
    }

    open spec fn highest() -> int {
        usize::MAX as int
    }

    open spec fn bits() -> int {
        usize::BITS as int
    }

    open spec fn from_value(v: int) -> usize {
        v as usize
    }

    open spec fn complement(self) -> usize {
        !self
    }

    open spec fn bit_and(self, rhs: usize) -> usize {
        self & rhs
    }

    open spec fn bit_or(self, rhs: usize) -> usize {
        self | rhs
    }

    open spec fn bit_xor(self, rhs: usize) -> usize {
        self ^ rhs
    }

    open spec fn shifted_left(self, n: u32) -> usize {
        self << n
    }

    open spec fn shifted_right(self, n: u32) -> usize {
        self >> n
    }

    proof fn lemma_value_in_range(self) {
    }

    proof fn lemma_from_value(v: int) {
    }

    proof fn lemma_value_injective(self, other: usize) {
    }
}

/// The primitives of `usize`, each shown to return what the model says.
impl Primitive for usize {
    fn checked_add(self, rhs: usize) -> (r: Option<usize>) {
        usize::checked_add(self, rhs)
    }

    fn checked_sub(self, rhs: usize) -> (r: Option<usize>) {
        usize::checked_sub(self, rhs)
    }

    fn checked_mul(self, rhs: usize) -> (r: Option<usize>) {
        usize::checked_mul(self, rhs)
    }

    fn checked_div(self, rhs: usize) -> (r: Option<usize>) {
        usize::checked_div(self, rhs)
    }

    fn checked_rem(self, rhs: usize) -> (r: Option<usize>) {
        usize::checked_rem(self, rhs)
    }

    fn checked_neg(self) -> (r: Option<usize>) {
        if self == 0 {
            Some(0)
        } else {
            None
        }
    }

    fn checked_shl(self, n: u32) -> (r: Option<usize>) {
        if n < usize::BITS {
            Some(self << n)
        } else {
            None
        }
    }

    fn checked_shr(self, n: u32) -> (r: Option<usize>) {
        if n < usize::BITS {
            Some(self >> n)
        } else {
            None
        }
    }

    fn widen(self) -> (r: i128) {
        self as i128
    }

    fn not_bits(self) -> (r: usize) {
        !self
    }

    fn and_bits(self, rhs: usize) -> (r: usize) {
        self & rhs
    }

    fn or_bits(self, rhs: usize) -> (r: usize) {
        self | rhs
    }

    fn xor_bits(self, rhs: usize) -> (r: usize) {
        self ^ rhs
    }
}

} // verus!
