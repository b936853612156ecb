//! `isize` as a fixed-width integer.

use crate::width::{lemma_truncated_division, FixedWidth, Primitive};
use vstd::prelude::*;

verus! {

/// `isize` read as a mathematical integer; its bitwise operations are the operators of the type.
impl FixedWidth for isize {
    open spec fn value(self) -> int {
        self as int
    }

    open spec fn lowest() -> int {
        isize::MIN as int
    }

    open spec fn highest() -> int {
        isize::MAX as int
    }

    open spec fn bits() -> int {
        isize::BITS as int
    }

    open spec fn from_value(v: int) -> isize {
        v as isize
    }

    open spec fn complement(self) -> isize {
        !self
    }

    open spec fn bit_and(self, rhs: isize) -> isize {
        self & rhs
    }

    open spec fn bit_or(self, rhs: isize) -> isize {
        self | rhs
    }

    open spec fn bit_xor(self, rhs: isize) -> isize {
        self ^ rhs
    }

    open spec fn shifted_left(self, n: u32) -> isize {
        self << n
    }

    open spec fn shifted_right(self, n: u32) -> isize {
        self >> n
    }

    proof fn lemma_value_in_range(self) {
    }

    proof fn lemma_from_value(v: int) {
    }

    proof fn lemma_value_injective(self, other: isize) {
    }
}

/// The primitives of `isize`, each shown to return what the model says.
impl Primitive for isize {
    fn checked_add(self, rhs: isize) -> (r: Option<isize>) {
        isize::checked_add(self, rhs)
    }

    fn checked_sub(self, rhs: isize) -> (r: Option<isize>) {
        isize::checked_sub(self, rhs)
    }

    fn checked_mul(self, rhs: isize) -> (r: Option<isize>) {
        isize::checked_mul(self, rhs)
    }

    fn checked_div(self, rhs: isize) -> (r: Option<isize>) {
        proof {
            if rhs != 0 {
                lemma_truncated_division(self as int, rhs as int);
            }
        }
        isize::checked_div(self, rhs)
    }

    fn checked_rem(self, rhs: isize) -> (r: Option<isize>) {
        proof {
            if rhs != 0 {
                lemma_truncated_division(self as int, rhs as int);
            }
        }
        isize::checked_rem(self, rhs)
    }

    fn checked_neg(self) -> (r: Option<isize>) {
        if self == isize::MIN {
            None
        } else {
            Some(-self)
        }
    }

    fn checked_shl(self, n: u32) -> (r: Option<isize>) {
        if n < isize::BITS {
            Some(self << n)
        } else {
            None
        }
    }

    fn checked_shr(self, n: u32) -> (r: Option<isize>) {
        if n < isize::BITS {
            Some(self >> n)
        } else {
            None
        }
    }

    fn widen(self) -> (r: i128) {
        self as i128
    }

    fn not_bits(self) -> (r: isize) {
        !self
    }

    fn and_bits(self, rhs: isize) -> (r: isize) {
        self & rhs
    }

    fn or_bits(self, rhs: isize) -> (r: isize) {
        self | rhs
    }

    fn xor_bits(self, rhs: isize) -> (r: isize) {
        self ^ rhs
    }
}

} // verus!
