//! `<<`: the left shift of a checked integer by a 32-bit amount.

use crate::num::Checked;
use crate::width::Primitive;
use vstd::prelude::*;

verus! {

/// `checked << checked`: overflowed if either operand is, or if the amount is not
/// less than the width of `T`.
impl<T: Primitive> std::ops::Shl<Checked<u32>> for Checked<T> {
    type Output = Checked<T>;

    fn shl(self, amount: Checked<u32>) -> (r: Checked<T>)
        ensures
            r == self.shifted_left(amount),
    {
        match (self.0, amount.0) {
            (Some(x), Some(n)) => Checked(x.checked_shl(n)),
            _ => Checked(None),
        }
    }
}

impl<T: Primitive> vstd::std_specs::ops::ShlSpecImpl<Checked<u32>> for Checked<T> {
    open spec fn obeys_shl_spec() -> bool {
        true
    }

    open spec fn shl_req(self, amount: Checked<u32>) -> bool {
        true
    }

    open spec fn shl_spec(self, amount: Checked<u32>) -> Checked<T> {
        self.shifted_left(amount)
    }
}

/// `checked << raw`: the raw amount counts as valid.
impl<T: Primitive> std::ops::Shl<u32> for Checked<T> {
    type Output = Checked<T>;

    fn shl(self, amount: u32) -> (r: Checked<T>)
        ensures
            r == self.shifted_left(Checked(Some(amount))),
    {
        match self.0 {
            Some(x) => Checked(x.checked_shl(amount)),
            None => Checked(None),
        }
    }
}

impl<T: Primitive> vstd::std_specs::ops::ShlSpecImpl<u32> for Checked<T> {
    open spec fn obeys_shl_spec() -> bool {
        true
    }

    open spec fn shl_req(self, amount: u32) -> bool {
        true
    }

    open spec fn shl_spec(self, amount: u32) -> Checked<T> {
        self.shifted_left(Checked(Some(amount)))
    }
}

/// `&checked << checked`.
impl<'a, T: Primitive> std::ops::Shl<Checked<u32>> for &'a Checked<T> {
    type Output = Checked<T>;

    fn shl(self, amount: Checked<u32>) -> (r: Checked<T>)
        ensures
            r == (*self).shifted_left(amount),
    {
        *self << amount
    }
}

impl<'a, T: Primitive> vstd::std_specs::ops::ShlSpecImpl<Checked<u32>> for &'a Checked<T> {
    open spec fn obeys_shl_spec() -> bool {
        true
    }

    open spec fn shl_req(self, amount: Checked<u32>) -> bool {
        true
    }

    open spec fn shl_spec(self, amount: Checked<u32>) -> Checked<T> {
        (*self).shifted_left(amount)
    }
}

/// `checked << &checked`.
impl<'a, T: Primitive> std::ops::Shl<&'a Checked<u32>> for Checked<T> {
    type Output = Checked<T>;

    fn shl(self, amount: &'a Checked<u32>) -> (r: Checked<T>)
        ensures
            r == self.shifted_left(*amount),
    {
        self << *amount
    }
}

impl<'a, T: Primitive> vstd::std_specs::ops::ShlSpecImpl<&'a Checked<u32>> for Checked<T> {
    open spec fn obeys_shl_spec() -> bool {
        true
    }

    open spec fn shl_req(self, amount: &'a Checked<u32>) -> bool {
        true
    }

    open spec fn shl_spec(self, amount: &'a Checked<u32>) -> Checked<T> {
        self.shifted_left(*amount)
    }
}

/// `&checked << &checked`.
impl<'a, 'b, T: Primitive> std::ops::Shl<&'a Checked<u32>> for &'b Checked<T> {
    type Output = Checked<T>;

    fn shl(self, amount: &'a Checked<u32>) -> (r: Checked<T>)
        ensures
            r == (*self).shifted_left(*amount),
    {
        *self << *amount
    }
}

impl<'a, 'b, T: Primitive> vstd::std_specs::ops::ShlSpecImpl<&'a Checked<u32>> for &'b Checked<T> {
    open spec fn obeys_shl_spec() -> bool {
        true
    }

    open spec fn shl_req(self, amount: &'a Checked<u32>) -> bool {
        true
    }

    open spec fn shl_spec(self, amount: &'a Checked<u32>) -> Checked<T> {
        (*self).shifted_left(*amount)
    }
}

/// `&checked << raw`.
impl<'a, T: Primitive> std::ops::Shl<u32> for &'a Checked<T> {
    type Output = Checked<T>;

    fn shl(self, amount: u32) -> (r: Checked<T>)
        ensures
            r == (*self).shifted_left(Checked(Some(amount))),
    {
        *self << amount
    }
}

impl<'a, T: Primitive> vstd::std_specs::ops::ShlSpecImpl<u32> for &'a Checked<T> {
    open spec fn obeys_shl_spec() -> bool {
        true
    }

    open spec fn shl_req(self, amount: u32) -> bool {
        true
    }

    open spec fn shl_spec(self, amount: u32) -> Checked<T> {
        (*self).shifted_left(Checked(Some(amount)))
    }
}

/// `checked << &raw`.
impl<'a, T: Primitive> std::ops::Shl<&'a u32> for Checked<T> {
    type Output = Checked<T>;

    fn shl(self, amount: &'a u32) -> (r: Checked<T>)
        ensures
            r == self.shifted_left(Checked(Some(*amount))),
    {
        self << *amount
    }
}

impl<'a, T: Primitive> vstd::std_specs::ops::ShlSpecImpl<&'a u32> for Checked<T> {
    open spec fn obeys_shl_spec() -> bool {
        true
    }

    open spec fn shl_req(self, amount: &'a u32) -> bool {
        true
    }

    open spec fn shl_spec(self, amount: &'a u32) -> Checked<T> {
        self.shifted_left(Checked(Some(*amount)))
    }
}

/// `&checked << &raw`.
impl<'a, 'b, T: Primitive> std::ops::Shl<&'a u32> for &'b Checked<T> {
    type Output = Checked<T>;

    fn shl(self, amount: &'a u32) -> (r: Checked<T>)
        ensures
            r == (*self).shifted_left(Checked(Some(*amount))),
    {
        *self << *amount
    }
}

impl<'a, 'b, T: Primitive> vstd::std_specs::ops::ShlSpecImpl<&'a u32> for &'b Checked<T> {
    open spec fn obeys_shl_spec() -> bool {
        true
    }

    open spec fn shl_req(self, amount: &'a u32) -> bool {
        true
    }

    open spec fn shl_spec(self, amount: &'a u32) -> Checked<T> {
        (*self).shifted_left(Checked(Some(*amount)))
    }
}

/// `checked <<= raw`: `self` becomes what `<<` yields.
impl<T: Primitive> std::ops::ShlAssign<u32> for Checked<T> {
    fn shl_assign(&mut self, amount: u32)
        ensures
            *final(self) == (*old(self)).shifted_left(Checked(Some(amount))),
    {
        *self = *self << amount;
    }
}

/// `checked <<= checked`.
impl<T: Primitive> std::ops::ShlAssign<Checked<u32>> for Checked<T> {
    fn shl_assign(&mut self, amount: Checked<u32>)
        ensures
            *final(self) == (*old(self)).shifted_left(amount),
    {
        *self = *self << amount;
    }
}

} // verus!
