//! The checked integer itself: how it is made, what it stands for, and what each operation
//! on it yields.

use crate::width::{
    checked_difference, checked_negation, checked_product, checked_quotient, checked_remainder,
    checked_shift_left, checked_shift_right, checked_sum, FixedWidth,
};
use vstd::prelude::*;

verus! {

/// An integer, or the mark that the arithmetic which should have produced it overflowed.
///
/// `Checked(Some(x))` is the valid integer `x`; `Checked(None)` is the overflow mark.
#[derive(Clone, Copy, Debug, Hash, PartialEq, Eq, Structural)]
pub struct Checked<T>(pub Option<T>);

impl<T> Checked<T> {
    /// Wraps an integer. The result is always valid.
    pub fn new(x: T) -> (r: Checked<T>)
        ensures
            r == Checked(Some(x)),
    {
        Checked(Some(x))
    }
}

/// A checked integer is seen as the mathematical integer it holds, if it holds one.
impl<T: FixedWidth> View for Checked<T> {
    type V = Option<int>;

    open spec fn view(&self) -> Option<int> {
        match self.0 {
            Some(x) => Some(x.value()),
            None => None,
        }
    }
}

impl<T> Default for Checked<T> {
    /// The default is the overflow mark, not zero.
    fn default() -> (r: Checked<T>)
        ensures
            r == Checked::<T>(None),
    {
        Checked(None)
    }
}

impl<T> From<T> for Checked<T> {
    /// Wraps an integer, as [`Checked::new`] does.
    fn from(x: T) -> (r: Checked<T>) {
        Checked(Some(x))
    }
}

impl<T> vstd::std_specs::convert::FromSpecImpl<T> for Checked<T> {
    open spec fn obeys_from_spec() -> bool {
        true
    }

    open spec fn from_spec(x: T) -> Checked<T> {
        Checked(Some(x))
    }
}

impl<T> From<Option<T>> for Checked<T> {
    /// Wraps the outcome of a checked primitive: valid if present, overflowed if absent.
    fn from(x: Option<T>) -> (r: Checked<T>) {
        Checked(x)
    }
}

impl<T> vstd::std_specs::convert::FromSpecImpl<Option<T>> for Checked<T> {
    open spec fn obeys_from_spec() -> bool {
        true
    }

    open spec fn from_spec(x: Option<T>) -> Checked<T> {
        Checked(x)
    }
}

impl<T> Into<Option<T>> for Checked<T> {
    /// Hands out the integer, if there is one.
    fn into(self) -> (r: Option<T>) {
        self.0
    }
}

impl<T> vstd::std_specs::convert::IntoSpecImpl<Option<T>> for Checked<T> {
    open spec fn obeys_into_spec() -> bool {
        true
    }

    open spec fn into_spec(self) -> Option<T> {
        self.0
    }
}

/// What each operation yields.
///
/// One rule holds throughout: an operation on the overflow mark yields the overflow mark, and
/// the primitive is consulted only when every operand is valid.
impl<T: FixedWidth> Checked<T> {
    /// The sum of two checked integers: overflowed if either is, or if the primitive fails.
    pub open spec fn sum(self, other: Checked<T>) -> Checked<T> {
        match (self.0, other.0) {
            (Some(x), Some(y)) => Checked(checked_sum(x, y)),
            _ => Checked(None),
        }
    }

    /// The difference of two checked integers: overflowed if either is, or if the primitive fails.
    pub open spec fn difference(self, other: Checked<T>) -> Checked<T> {
        match (self.0, other.0) {
            (Some(x), Some(y)) => Checked(checked_difference(x, y)),
            _ => Checked(None),
        }
    }

    /// The product of two checked integers: overflowed if either is, or if the primitive fails.
    pub open spec fn product(self, other: Checked<T>) -> Checked<T> {
        match (self.0, other.0) {
            (Some(x), Some(y)) => Checked(checked_product(x, y)),
            _ => Checked(None),
        }
    }

    /// The quotient of two checked integers, rounded toward zero: overflowed if either is, or if the primitive fails.
    pub open spec fn quotient(self, other: Checked<T>) -> Checked<T> {
        match (self.0, other.0) {
            (Some(x), Some(y)) => Checked(checked_quotient(x, y)),
            _ => Checked(None),
        }
    }

    /// The remainder of the division of two checked integers: overflowed if either is, or if the primitive fails.
    pub open spec fn remainder(self, other: Checked<T>) -> Checked<T> {
        match (self.0, other.0) {
            (Some(x), Some(y)) => Checked(checked_remainder(x, y)),
            _ => Checked(None),
        }
    }

    /// The negation of a checked integer: overflowed if it is, or if the primitive fails.
    pub open spec fn negation(self) -> Checked<T> {
        match self.0 {
            Some(x) => Checked(checked_negation(x)),
            None => Checked(None),
        }
    }

    /// A checked integer with every bit flipped: overflowed only if it already is.
    pub open spec fn flipped(self) -> Checked<T> {
        match self.0 {
            Some(x) => Checked(Some(x.complement())),
            None => Checked(None),
        }
    }

    /// The bitwise and of two checked integers: overflowed only if either already is.
    pub open spec fn conjunction(self, other: Checked<T>) -> Checked<T> {
        match (self.0, other.0) {
            (Some(x), Some(y)) => Checked(Some(x.bit_and(y))),
            _ => Checked(None),
        }
    }

    /// The bitwise or of two checked integers: overflowed only if either already is.
    pub open spec fn disjunction(self, other: Checked<T>) -> Checked<T> {
        match (self.0, other.0) {
            (Some(x), Some(y)) => Checked(Some(x.bit_or(y))),
            _ => Checked(None),
        }
    }

    /// The bitwise exclusive or of two checked integers: overflowed only if either already is.
    pub open spec fn exclusion(self, other: Checked<T>) -> Checked<T> {
        match (self.0, other.0) {
            (Some(x), Some(y)) => Checked(Some(x.bit_xor(y))),
            _ => Checked(None),
        }
    }

    /// A checked integer shifted left by a checked amount: overflowed if either is, or if the
    /// amount is not less than the width of `T`.
    pub open spec fn shifted_left(self, amount: Checked<u32>) -> Checked<T> {
        match (self.0, amount.0) {
            (Some(x), Some(n)) => Checked(checked_shift_left(x, n)),
            _ => Checked(None),
        }
    }

    /// A checked integer shifted right by a checked amount: overflowed if either is, or if the
    /// amount is not less than the width of `T`.
    pub open spec fn shifted_right(self, amount: Checked<u32>) -> Checked<T> {
        match (self.0, amount.0) {
            (Some(x), Some(n)) => Checked(checked_shift_right(x, n)),
            _ => Checked(None),
        }
    }
}

} // verus!
