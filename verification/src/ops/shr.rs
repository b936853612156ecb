//! `>>`: the right shift of a checked integer by a 32-bit amount.

use crate::num::Checked;
use crate::width::Primitive;
use vstd::prelude::*;

verus! {

/// `checked >> checked`: overflowed if either operand is, or if the amount is not
/// less than the width of `T`.
impl<T: Primitive> std::ops::Shr<Checked<u32>> for Checked<T> {
    type Output = Checked<T>;

    fn shr(self, amount: Checked<u32>) -> (r: Checked<T>)
        ensures
            r == self.shifted_right(amount),
    {
        match (self.0, amount.0) {
            (Some(x), Some(n)) => Checked(x.checked_shr(n)),
            _ => Checked(None),
        }
    }
}

impl<T: Primitive> vstd::std_specs::ops::ShrSpecImpl<Checked<u32>> for Checked<T> {
    open spec fn obeys_shr_spec() -> bool {
        true
    }

    open spec fn shr_req(self, amount: Checked<u32>) -> bool {
        true
    }

    open spec fn shr_spec(self, amount: Checked<u32>) -> Checked<T> {
        self.shifted_right(amount)
    }
}

/// `checked >> raw`: the raw amount counts as valid.
impl<T: Primitive> std::ops::Shr<u32> for Checked<T> {
    type Output = Checked<T>;

    fn shr(self, amount: u32) -> (r: Checked<T>)
        ensures
            r == self.shifted_right(Checked(Some(amount))),
    {
        match self.0 {
            Some(x) => Checked(x.checked_shr(amount)),
            None => Checked(None),
        }
    }
}

impl<T: Primitive> vstd::std_specs::ops::ShrSpecImpl<u32> for Checked<T> {
    open spec fn obeys_shr_spec() -> bool {
        true
    }

    open spec fn shr_req(self, amount: u32) -> bool {
        true
    }

    open spec fn shr_spec(self, amount: u32) -> Checked<T> {
        self.shifted_right(Checked(Some(amount)))
    }
}

/// `&checked >> checked`.
impl<'a, T: Primitive> std::ops::Shr<Checked<u32>> for &'a Checked<T> {
    type Output = Checked<T>;

    fn shr(self, amount: Checked<u32>) -> (r: Checked<T>)
        ensures
            r == (*self).shifted_right(amount),
    {
        *self >> amount
    }
}

impl<'a, T: Primitive> vstd::std_specs::ops::ShrSpecImpl<Checked<u32>> for &'a Checked<T> {
    open spec fn obeys_shr_spec() -> bool {
        true
    }

    open spec fn shr_req(self, amount: Checked<u32>) -> bool {
        true
    }

    open spec fn shr_spec(self, amount: Checked<u32>) -> Checked<T> {
        (*self).shifted_right(amount)
    }
}

/// `checked >> &checked`.
impl<'a, T: Primitive> std::ops::Shr<&'a Checked<u32>> for Checked<T> {
    type Output = Checked<T>;

    fn shr(self, amount: &'a Checked<u32>) -> (r: Checked<T>)
        ensures
            r == self.shifted_right(*amount),
    {
        self >> *amount
    }
}

impl<'a, T: Primitive> vstd::std_specs::ops::ShrSpecImpl<&'a Checked<u32>> for Checked<T> {
    open spec fn obeys_shr_spec() -> bool {
        true
    }

    open spec fn shr_req(self, amount: &'a Checked<u32>) -> bool {
        true
    }

    open spec fn shr_spec(self, amount: &'a Checked<u32>) -> Checked<T> {
        self.shifted_right(*amount)
    }
}

/// `&checked >> &checked`.
impl<'a, 'b, T: Primitive> std::ops::Shr<&'a Checked<u32>> for &'b Checked<T> {
    type Output = Checked<T>;

    fn shr(self, amount: &'a Checked<u32>) -> (r: Checked<T>)
        ensures
            r == (*self).shifted_right(*amount),
    {
        *self >> *amount
    }
}

impl<'a, 'b, T: Primitive> vstd::std_specs::ops::ShrSpecImpl<&'a Checked<u32>> for &'b Checked<T> {
    open spec fn obeys_shr_spec() -> bool {
        true
    }

    open spec fn shr_req(self, amount: &'a Checked<u32>) -> bool {
        true
    }

    open spec fn shr_spec(self, amount: &'a Checked<u32>) -> Checked<T> {
        (*self).shifted_right(*amount)
    }
}

/// `&checked >> raw`.
impl<'a, T: Primitive> std::ops::Shr<u32> for &'a Checked<T> {
    type Output = Checked<T>;

    fn shr(self, amount: u32) -> (r: Checked<T>)
        ensures
            r == (*self).shifted_right(Checked(Some(amount))),
    {
        *self >> amount
    }
}

impl<'a, T: Primitive> vstd::std_specs::ops::ShrSpecImpl<u32> for &'a Checked<T> {
    open spec fn obeys_shr_spec() -> bool {
        true
    }

    open spec fn shr_req(self, amount: u32) -> bool {
        true
    }

    open spec fn shr_spec(self, amount: u32) -> Checked<T> {
        (*self).shifted_right(Checked(Some(amount)))
    }
}

/// `checked >> &raw`.
impl<'a, T: Primitive> std::ops::Shr<&'a u32> for Checked<T> {
    type Output = Checked<T>;

    fn shr(self, amount: &'a u32) -> (r: Checked<T>)
        ensures
            r == self.shifted_right(Checked(Some(*amount))),
    {
        self >> *amount
    }
}

impl<'a, T: Primitive> vstd::std_specs::ops::ShrSpecImpl<&'a u32> for Checked<T> {
    open spec fn obeys_shr_spec() -> bool {
        true
    }

    open spec fn shr_req(self, amount: &'a u32) -> bool {
        true
    }

    open spec fn shr_spec(self, amount: &'a u32) -> Checked<T> {
        self.shifted_right(Checked(Some(*amount)))
    }
}

/// `&checked >> &raw`.
impl<'a, 'b, T: Primitive> std::ops::Shr<&'a u32> for &'b Checked<T> {
    type Output = Checked<T>;

    fn shr(self, amount: &'a u32) -> (r: Checked<T>)
        ensures
            r == (*self).shifted_right(Checked(Some(*amount))),
    {
        *self >> *amount
    }
}

impl<'a, 'b, T: Primitive> vstd::std_specs::ops::ShrSpecImpl<&'a u32> for &'b Checked<T> {
    open spec fn obeys_shr_spec() -> bool {
        true
    }

    open spec fn shr_req(self, amount: &'a u32) -> bool {
        true
    }

    open spec fn shr_spec(self, amount: &'a u32) -> Checked<T> {
        (*self).shifted_right(Checked(Some(*amount)))
    }
}

/// `checked >>= raw`: `self` becomes what `>>` yields.
impl<T: Primitive> std::ops::ShrAssign<u32> for Checked<T> {
    fn shr_assign(&mut self, amount: u32)
        ensures
            *final(self) == (*old(self)).shifted_right(Checked(Some(amount))),
    {
        *self = *self >> amount;
    }
}

/// `checked >>= checked`.
impl<T: Primitive> std::ops::ShrAssign<Checked<u32>> for Checked<T> {
    fn shr_assign(&mut self, amount: Checked<u32>)
        ensures
            *final(self) == (*old(self)).shifted_right(amount),
    {
        *self = *self >> amount;
    }
}

} // verus!
