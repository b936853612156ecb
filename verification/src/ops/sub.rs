//! `-`: the subtraction of checked integers.

use crate::num::Checked;
use crate::width::Primitive;
use vstd::prelude::*;

verus! {

/// `checked - checked`: overflowed if either operand is, or if the primitive fails.
impl<T: Primitive> std::ops::Sub for Checked<T> {
    type Output = Checked<T>;

    fn sub(self, other: Checked<T>) -> (r: Checked<T>)
        ensures
            r == self.difference(other),
    {
        match (self.0, other.0) {
            (Some(x), Some(y)) => Checked(x.checked_sub(y)),
            _ => Checked(None),
        }
    }
}

impl<T: Primitive> vstd::std_specs::ops::SubSpecImpl for Checked<T> {
    open spec fn obeys_sub_spec() -> bool {
        true
    }

    open spec fn sub_req(self, other: Checked<T>) -> bool {
        true
    }

    open spec fn sub_spec(self, other: Checked<T>) -> Checked<T> {
        self.difference(other)
    }
}

/// `checked - raw`: the raw integer counts as valid.
impl<T: Primitive> std::ops::Sub<T> for Checked<T> {
    type Output = Checked<T>;

    fn sub(self, other: T) -> (r: Checked<T>)
        ensures
            r == self.difference(Checked(Some(other))),
    {
        match self.0 {
            Some(x) => Checked(x.checked_sub(other)),
            None => Checked(None),
        }
    }
}

impl<T: Primitive> vstd::std_specs::ops::SubSpecImpl<T> for Checked<T> {
    open spec fn obeys_sub_spec() -> bool {
        true
    }

    open spec fn sub_req(self, other: T) -> bool {
        true
    }

    open spec fn sub_spec(self, other: T) -> Checked<T> {
        self.difference(Checked(Some(other)))
    }
}

/// `&checked - checked`.
impl<'a, T: Primitive> std::ops::Sub<Checked<T>> for &'a Checked<T> {
    type Output = Checked<T>;

    fn sub(self, other: Checked<T>) -> (r: Checked<T>)
        ensures
            r == (*self).difference(other),
    {
        *self - other
    }
}

impl<'a, T: Primitive> vstd::std_specs::ops::SubSpecImpl<Checked<T>> for &'a Checked<T> {
    open spec fn obeys_sub_spec() -> bool {
        true
    }

    open spec fn sub_req(self, other: Checked<T>) -> bool {
        true
    }

    open spec fn sub_spec(self, other: Checked<T>) -> Checked<T> {
        (*self).difference(other)
    }
}

/// `checked - &checked`.
impl<'a, T: Primitive> std::ops::Sub<&'a Checked<T>> for Checked<T> {
    type Output = Checked<T>;

    fn sub(self, other: &'a Checked<T>) -> (r: Checked<T>)
        ensures
            r == self.difference(*other),
    {
        self - *other
    }
}

impl<'a, T: Primitive> vstd::std_specs::ops::SubSpecImpl<&'a Checked<T>> for Checked<T> {
    open spec fn obeys_sub_spec() -> bool {
        true
    }

    open spec fn sub_req(self, other: &'a Checked<T>) -> bool {
        true
    }

    open spec fn sub_spec(self, other: &'a Checked<T>) -> Checked<T> {
        self.difference(*other)
    }
}

/// `&checked - &checked`.
impl<'a, 'b, T: Primitive> std::ops::Sub<&'a Checked<T>> for &'b Checked<T> {
    type Output = Checked<T>;

    fn sub(self, other: &'a Checked<T>) -> (r: Checked<T>)
        ensures
            r == (*self).difference(*other),
    {
        *self - *other
    }
}

impl<'a, 'b, T: Primitive> vstd::std_specs::ops::SubSpecImpl<&'a Checked<T>> for &'b Checked<T> {
    open spec fn obeys_sub_spec() -> bool {
        true
    }

    open spec fn sub_req(self, other: &'a Checked<T>) -> bool {
        true
    }

    open spec fn sub_spec(self, other: &'a Checked<T>) -> Checked<T> {
        (*self).difference(*other)
    }
}

/// `&checked - raw`.
impl<'a, T: Primitive> std::ops::Sub<T> for &'a Checked<T> {
    type Output = Checked<T>;

    fn sub(self, other: T) -> (r: Checked<T>)
        ensures
            r == (*self).difference(Checked(Some(other))),
    {
        *self - other
    }
}

impl<'a, T: Primitive> vstd::std_specs::ops::SubSpecImpl<T> for &'a Checked<T> {
    open spec fn obeys_sub_spec() -> bool {
        true
    }

    open spec fn sub_req(self, other: T) -> bool {
        true
    }

    open spec fn sub_spec(self, other: T) -> Checked<T> {
        (*self).difference(Checked(Some(other)))
    }
}

/// `checked - &raw`.
impl<'a, T: Primitive> std::ops::Sub<&'a T> for Checked<T> {
    type Output = Checked<T>;

    fn sub(self, other: &'a T) -> (r: Checked<T>)
        ensures
            r == self.difference(Checked(Some(*other))),
    {
        self - *other
    }
}

impl<'a, T: Primitive> vstd::std_specs::ops::SubSpecImpl<&'a T> for Checked<T> {
    open spec fn obeys_sub_spec() -> bool {
        true
    }

    open spec fn sub_req(self, other: &'a T) -> bool {
        true
    }

    open spec fn sub_spec(self, other: &'a T) -> Checked<T> {
        self.difference(Checked(Some(*other)))
    }
}

/// `&checked - &raw`.
impl<'a, 'b, T: Primitive> std::ops::Sub<&'a T> for &'b Checked<T> {
    type Output = Checked<T>;

    fn sub(self, other: &'a T) -> (r: Checked<T>)
        ensures
            r == (*self).difference(Checked(Some(*other))),
    {
        *self - *other
    }
}

impl<'a, 'b, T: Primitive> vstd::std_specs::ops::SubSpecImpl<&'a T> for &'b Checked<T> {
    open spec fn obeys_sub_spec() -> bool {
        true
    }

    open spec fn sub_req(self, other: &'a T) -> bool {
        true
    }

    open spec fn sub_spec(self, other: &'a T) -> Checked<T> {
        (*self).difference(Checked(Some(*other)))
    }
}

/// `checked -= checked`: `self` becomes what `-` yields.
impl<T: Primitive> std::ops::SubAssign for Checked<T> {
    fn sub_assign(&mut self, other: Checked<T>)
        ensures
            *final(self) == (*old(self)).difference(other),
    {
        *self = *self - other;
    }
}

/// `checked -= raw`.
impl<T: Primitive> std::ops::SubAssign<T> for Checked<T> {
    fn sub_assign(&mut self, other: T)
        ensures
            *final(self) == (*old(self)).difference(Checked(Some(other))),
    {
        *self = *self - other;
    }
}

} // verus!
