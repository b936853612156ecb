//! `/`: the division of checked integers.

use crate::num::Checked;
use crate::width::Primitive;
use vstd::prelude::*;

verus! {

/// `checked / checked`: overflowed if either operand is, or if the primitive fails.
impl<T: Primitive> std::ops::Div for Checked<T> {
    type Output = Checked<T>;

    fn div(self, other: Checked<T>) -> (r: Checked<T>)
        ensures
            r == self.quotient(other),
    {
        match (self.0, other.0) {
            (Some(x), Some(y)) => Checked(x.checked_div(y)),
            _ => Checked(None),
        }
    }
}

impl<T: Primitive> vstd::std_specs::ops::DivSpecImpl for Checked<T> {
    open spec fn obeys_div_spec() -> bool {
        true
    }

    open spec fn div_req(self, other: Checked<T>) -> bool {
        true
    }

    open spec fn div_spec(self, other: Checked<T>) -> Checked<T> {
        self.quotient(other)
    }
}

/// `checked / raw`: the raw integer counts as valid.
impl<T: Primitive> std::ops::Div<T> for Checked<T> {
    type Output = Checked<T>;

    fn div(self, other: T) -> (r: Checked<T>)
        ensures
            r == self.quotient(Checked(Some(other))),
    {
        match self.0 {
            Some(x) => Checked(x.checked_div(other)),
            None => Checked(None),
        }
    }
}

impl<T: Primitive> vstd::std_specs::ops::DivSpecImpl<T> for Checked<T> {
    open spec fn obeys_div_spec() -> bool {
        true
    }

    open spec fn div_req(self, other: T) -> bool {
        true
    }

    open spec fn div_spec(self, other: T) -> Checked<T> {
        self.quotient(Checked(Some(other)))
    }
}

/// `&checked / checked`.
impl<'a, T: Primitive> std::ops::Div<Checked<T>> for &'a Checked<T> {
    type Output = Checked<T>;

    fn div(self, other: Checked<T>) -> (r: Checked<T>)
        ensures
            r == (*self).quotient(other),
    {
        *self / other
    }
}

impl<'a, T: Primitive> vstd::std_specs::ops::DivSpecImpl<Checked<T>> for &'a Checked<T> {
    open spec fn obeys_div_spec() -> bool {
        true
    }

    open spec fn div_req(self, other: Checked<T>) -> bool {
        true
    }

    open spec fn div_spec(self, other: Checked<T>) -> Checked<T> {
        (*self).quotient(other)
    }
}

/// `checked / &checked`.
impl<'a, T: Primitive> std::ops::Div<&'a Checked<T>> for Checked<T> {
    type Output = Checked<T>;

    fn div(self, other: &'a Checked<T>) -> (r: Checked<T>)
        ensures
            r == self.quotient(*other),
    {
        self / *other
    }
}

impl<'a, T: Primitive> vstd::std_specs::ops::DivSpecImpl<&'a Checked<T>> for Checked<T> {
    open spec fn obeys_div_spec() -> bool {
        true
    }

    open spec fn div_req(self, other: &'a Checked<T>) -> bool {
        true
    }

    open spec fn div_spec(self, other: &'a Checked<T>) -> Checked<T> {
        self.quotient(*other)
    }
}

/// `&checked / &checked`.
impl<'a, 'b, T: Primitive> std::ops::Div<&'a Checked<T>> for &'b Checked<T> {
    type Output = Checked<T>;

    fn div(self, other: &'a Checked<T>) -> (r: Checked<T>)
        ensures
            r == (*self).quotient(*other),
    {
        *self / *other
    }
}

impl<'a, 'b, T: Primitive> vstd::std_specs::ops::DivSpecImpl<&'a Checked<T>> for &'b Checked<T> {
    open spec fn obeys_div_spec() -> bool {
        true
    }

    open spec fn div_req(self, other: &'a Checked<T>) -> bool {
        true
    }

    open spec fn div_spec(self, other: &'a Checked<T>) -> Checked<T> {
        (*self).quotient(*other)
    }
}

/// `&checked / raw`.
impl<'a, T: Primitive> std::ops::Div<T> for &'a Checked<T> {
    type Output = Checked<T>;

    fn div(self, other: T) -> (r: Checked<T>)
        ensures
            r == (*self).quotient(Checked(Some(other))),
    {
        *self / other
    }
}

impl<'a, T: Primitive> vstd::std_specs::ops::DivSpecImpl<T> for &'a Checked<T> {
    open spec fn obeys_div_spec() -> bool {
        true
    }

    open spec fn div_req(self, other: T) -> bool {
        true
    }

    open spec fn div_spec(self, other: T) -> Checked<T> {
        (*self).quotient(Checked(Some(other)))
    }
}

/// `checked / &raw`.
impl<'a, T: Primitive> std::ops::Div<&'a T> for Checked<T> {
    type Output = Checked<T>;

    fn div(self, other: &'a T) -> (r: Checked<T>)
        ensures
            r == self.quotient(Checked(Some(*other))),
    {
        self / *other
    }
}

impl<'a, T: Primitive> vstd::std_specs::ops::DivSpecImpl<&'a T> for Checked<T> {
    open spec fn obeys_div_spec() -> bool {
        true
    }

    open spec fn div_req(self, other: &'a T) -> bool {
        true
    }

    open spec fn div_spec(self, other: &'a T) -> Checked<T> {
        self.quotient(Checked(Some(*other)))
    }
}

/// `&checked / &raw`.
impl<'a, 'b, T: Primitive> std::ops::Div<&'a T> for &'b Checked<T> {
    type Output = Checked<T>;

    fn div(self, other: &'a T) -> (r: Checked<T>)
        ensures
            r == (*self).quotient(Checked(Some(*other))),
    {
        *self / *other
    }
}

impl<'a, 'b, T: Primitive> vstd::std_specs::ops::DivSpecImpl<&'a T> for &'b Checked<T> {
    open spec fn obeys_div_spec() -> bool {
        true
    }

    open spec fn div_req(self, other: &'a T) -> bool {
        true
    }

    open spec fn div_spec(self, other: &'a T) -> Checked<T> {
        (*self).quotient(Checked(Some(*other)))
    }
}

/// `checked /= checked`: `self` becomes what `/` yields.
impl<T: Primitive> std::ops::DivAssign for Checked<T> {
    fn div_assign(&mut self, other: Checked<T>)
        ensures
            *final(self) == (*old(self)).quotient(other),
    {
        *self = *self / other;
    }
}

/// `checked /= raw`.
impl<T: Primitive> std::ops::DivAssign<T> for Checked<T> {
    fn div_assign(&mut self, other: T)
        ensures
            *final(self) == (*old(self)).quotient(Checked(Some(other))),
    {
        *self = *self / other;
    }
}

} // verus!
