//! `%`: the remainder of checked integers.

use crate::num::Checked;
use crate::width::Primitive;
use vstd::prelude::*;

verus! {

/// `checked % checked`: overflowed if either operand is, or if the primitive fails.
impl<T: Primitive> std::ops::Rem for Checked<T> {
    type Output = Checked<T>;

    fn rem(self, other: Checked<T>) -> (r: Checked<T>)
        ensures
            r == self.remainder(other),
    {
        match (self.0, other.0) {
            (Some(x), Some(y)) => Checked(x.checked_rem(y)),
            _ => Checked(None),
        }
    }
}

impl<T: Primitive> vstd::std_specs::ops::RemSpecImpl for Checked<T> {
    open spec fn obeys_rem_spec() -> bool {
        true
    }

    open spec fn rem_req(self, other: Checked<T>) -> bool {
        true
    }

    open spec fn rem_spec(self, other: Checked<T>) -> Checked<T> {
        self.remainder(other)
    }
}

/// `checked % raw`: the raw integer counts as valid.
impl<T: Primitive> std::ops::Rem<T> for Checked<T> {
    type Output = Checked<T>;

    fn rem(self, other: T) -> (r: Checked<T>)
        ensures
            r == self.remainder(Checked(Some(other))),
    {
        match self.0 {
            Some(x) => Checked(x.checked_rem(other)),
            None => Checked(None),
        }
    }
}

impl<T: Primitive> vstd::std_specs::ops::RemSpecImpl<T> for Checked<T> {
    open spec fn obeys_rem_spec() -> bool {
        true
    }

    open spec fn rem_req(self, other: T) -> bool {
        true
    }

    open spec fn rem_spec(self, other: T) -> Checked<T> {
        self.remainder(Checked(Some(other)))
    }
}

/// `&checked % checked`.
impl<'a, T: Primitive> std::ops::Rem<Checked<T>> for &'a Checked<T> {
    type Output = Checked<T>;

    fn rem(self, other: Checked<T>) -> (r: Checked<T>)
        ensures
            r == (*self).remainder(other),
    {
        *self % other
    }
}

impl<'a, T: Primitive> vstd::std_specs::ops::RemSpecImpl<Checked<T>> for &'a Checked<T> {
    open spec fn obeys_rem_spec() -> bool {
        true
    }

    open spec fn rem_req(self, other: Checked<T>) -> bool {
        true
    }

    open spec fn rem_spec(self, other: Checked<T>) -> Checked<T> {
        (*self).remainder(other)
    }
}

/// `checked % &checked`.
impl<'a, T: Primitive> std::ops::Rem<&'a Checked<T>> for Checked<T> {
    type Output = Checked<T>;

    fn rem(self, other: &'a Checked<T>) -> (r: Checked<T>)
        ensures
            r == self.remainder(*other),
    {
        self % *other
    }
}

impl<'a, T: Primitive> vstd::std_specs::ops::RemSpecImpl<&'a Checked<T>> for Checked<T> {
    open spec fn obeys_rem_spec() -> bool {
        true
    }

    open spec fn rem_req(self, other: &'a Checked<T>) -> bool {
        true
    }

    open spec fn rem_spec(self, other: &'a Checked<T>) -> Checked<T> {
        self.remainder(*other)
    }
}

/// `&checked % &checked`.
impl<'a, 'b, T: Primitive> std::ops::Rem<&'a Checked<T>> for &'b Checked<T> {
    type Output = Checked<T>;

    fn rem(self, other: &'a Checked<T>) -> (r: Checked<T>)
        ensures
            r == (*self).remainder(*other),
    {
        *self % *other
    }
}

impl<'a, 'b, T: Primitive> vstd::std_specs::ops::RemSpecImpl<&'a Checked<T>> for &'b Checked<T> {
    open spec fn obeys_rem_spec() -> bool {
        true
    }

    open spec fn rem_req(self, other: &'a Checked<T>) -> bool {
        true
    }

    open spec fn rem_spec(self, other: &'a Checked<T>) -> Checked<T> {
        (*self).remainder(*other)
    }
}

/// `&checked % raw`.
impl<'a, T: Primitive> std::ops::Rem<T> for &'a Checked<T> {
    type Output = Checked<T>;

    fn rem(self, other: T) -> (r: Checked<T>)
        ensures
            r == (*self).remainder(Checked(Some(other))),
    {
        *self % other
    }
}

impl<'a, T: Primitive> vstd::std_specs::ops::RemSpecImpl<T> for &'a Checked<T> {
    open spec fn obeys_rem_spec() -> bool {
        true
    }

    open spec fn rem_req(self, other: T) -> bool {
        true
    }

    open spec fn rem_spec(self, other: T) -> Checked<T> {
        (*self).remainder(Checked(Some(other)))
    }
}

/// `checked % &raw`.
impl<'a, T: Primitive> std::ops::Rem<&'a T> for Checked<T> {
    type Output = Checked<T>;

    fn rem(self, other: &'a T) -> (r: Checked<T>)
        ensures
            r == self.remainder(Checked(Some(*other))),
    {
        self % *other
    }
}

impl<'a, T: Primitive> vstd::std_specs::ops::RemSpecImpl<&'a T> for Checked<T> {
    open spec fn obeys_rem_spec() -> bool {
        true
    }

    open spec fn rem_req(self, other: &'a T) -> bool {
        true
    }

    open spec fn rem_spec(self, other: &'a T) -> Checked<T> {
        self.remainder(Checked(Some(*other)))
    }
}

/// `&checked % &raw`.
impl<'a, 'b, T: Primitive> std::ops::Rem<&'a T> for &'b Checked<T> {
    type Output = Checked<T>;

    fn rem(self, other: &'a T) -> (r: Checked<T>)
        ensures
            r == (*self).remainder(Checked(Some(*other))),
    {
        *self % *other
    }
}

impl<'a, 'b, T: Primitive> vstd::std_specs::ops::RemSpecImpl<&'a T> for &'b Checked<T> {
    open spec fn obeys_rem_spec() -> bool {
        true
    }

    open spec fn rem_req(self, other: &'a T) -> bool {
        true
    }

    open spec fn rem_spec(self, other: &'a T) -> Checked<T> {
        (*self).remainder(Checked(Some(*other)))
    }
}

/// `checked %= checked`: `self` becomes what `%` yields.
impl<T: Primitive> std::ops::RemAssign for Checked<T> {
    fn rem_assign(&mut self, other: Checked<T>)
        ensures
            *final(self) == (*old(self)).remainder(other),
    {
        *self = *self % other;
    }
}

/// `checked %= raw`.
impl<T: Primitive> std::ops::RemAssign<T> for Checked<T> {
    fn rem_assign(&mut self, other: T)
        ensures
            *final(self) == (*old(self)).remainder(Checked(Some(other))),
    {
        *self = *self % other;
    }
}

} // verus!
