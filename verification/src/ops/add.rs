//! `+`: the addition of checked integers.

use crate::num::Checked;
use crate::width::Primitive;
use vstd::prelude::*;

verus! {

/// `checked + checked`: overflowed if either operand is, or if the primitive fails.
impl<T: Primitive> std::ops::Add for Checked<T> {
    type Output = Checked<T>;

    fn add(self, other: Checked<T>) -> (r: Checked<T>)
        ensures
            r == self.sum(other),
    {
        match (self.0, other.0) {
            (Some(x), Some(y)) => Checked(x.checked_add(y)),
            _ => Checked(None),
        }
    }
}

impl<T: Primitive> vstd::std_specs::ops::AddSpecImpl for Checked<T> {
    open spec fn obeys_add_spec() -> bool {
        true
    }

    open spec fn add_req(self, other: Checked<T>) -> bool {
        true
    }

    open spec fn add_spec(self, other: Checked<T>) -> Checked<T> {
        self.sum(other)
    }
}

/// `checked + raw`: the raw integer counts as valid.
impl<T: Primitive> std::ops::Add<T> for Checked<T> {
    type Output = Checked<T>;

    fn add(self, other: T) -> (r: Checked<T>)
        ensures
            r == self.sum(Checked(Some(other))),
    {
        match self.0 {
            Some(x) => Checked(x.checked_add(other)),
            None => Checked(None),
        }
    }
}

impl<T: Primitive> vstd::std_specs::ops::AddSpecImpl<T> for Checked<T> {
    open spec fn obeys_add_spec() -> bool {
        true
    }

    open spec fn add_req(self, other: T) -> bool {
        true
    }

    open spec fn add_spec(self, other: T) -> Checked<T> {
        self.sum(Checked(Some(other)))
    }
}

/// `&checked + checked`.
impl<'a, T: Primitive> std::ops::Add<Checked<T>> for &'a Checked<T> {
    type Output = Checked<T>;

    fn add(self, other: Checked<T>) -> (r: Checked<T>)
        ensures
            r == (*self).sum(other),
    {
        *self + other
    }
}

impl<'a, T: Primitive> vstd::std_specs::ops::AddSpecImpl<Checked<T>> for &'a Checked<T> {
    open spec fn obeys_add_spec() -> bool {
        true
    }

    open spec fn add_req(self, other: Checked<T>) -> bool {
        true
    }

    open spec fn add_spec(self, other: Checked<T>) -> Checked<T> {
        (*self).sum(other)
    }
}

/// `checked + &checked`.
impl<'a, T: Primitive> std::ops::Add<&'a Checked<T>> for Checked<T> {
    type Output = Checked<T>;

    fn add(self, other: &'a Checked<T>) -> (r: Checked<T>)
        ensures
            r == self.sum(*other),
    {
        self + *other
    }
}

impl<'a, T: Primitive> vstd::std_specs::ops::AddSpecImpl<&'a Checked<T>> for Checked<T> {
    open spec fn obeys_add_spec() -> bool {
        true
    }

    open spec fn add_req(self, other: &'a Checked<T>) -> bool {
        true
    }

    open spec fn add_spec(self, other: &'a Checked<T>) -> Checked<T> {
        self.sum(*other)
    }
}

/// `&checked + &checked`.
impl<'a, 'b, T: Primitive> std::ops::Add<&'a Checked<T>> for &'b Checked<T> {
    type Output = Checked<T>;

    fn add(self, other: &'a Checked<T>) -> (r: Checked<T>)
        ensures
            r == (*self).sum(*other),
    {
        *self + *other
    }
}

impl<'a, 'b, T: Primitive> vstd::std_specs::ops::AddSpecImpl<&'a Checked<T>> for &'b Checked<T> {
    open spec fn obeys_add_spec() -> bool {
        true
    }

    open spec fn add_req(self, other: &'a Checked<T>) -> bool {
        true
    }

    open spec fn add_spec(self, other: &'a Checked<T>) -> Checked<T> {
        (*self).sum(*other)
    }
}

/// `&checked + raw`.
impl<'a, T: Primitive> std::ops::Add<T> for &'a Checked<T> {
    type Output = Checked<T>;

    fn add(self, other: T) -> (r: Checked<T>)
        ensures
            r == (*self).sum(Checked(Some(other))),
    {
        *self + other
    }
}

impl<'a, T: Primitive> vstd::std_specs::ops::AddSpecImpl<T> for &'a Checked<T> {
    open spec fn obeys_add_spec() -> bool {
        true
    }

    open spec fn add_req(self, other: T) -> bool {
        true
    }

    open spec fn add_spec(self, other: T) -> Checked<T> {
        (*self).sum(Checked(Some(other)))
    }
}

/// `checked + &raw`.
impl<'a, T: Primitive> std::ops::Add<&'a T> for Checked<T> {
    type Output = Checked<T>;

    fn add(self, other: &'a T) -> (r: Checked<T>)
        ensures
            r == self.sum(Checked(Some(*other))),
    {
        self + *other
    }
}

impl<'a, T: Primitive> vstd::std_specs::ops::AddSpecImpl<&'a T> for Checked<T> {
    open spec fn obeys_add_spec() -> bool {
        true
    }

    open spec fn add_req(self, other: &'a T) -> bool {
        true
    }

    open spec fn add_spec(self, other: &'a T) -> Checked<T> {
        self.sum(Checked(Some(*other)))
    }
}

/// `&checked + &raw`.
impl<'a, 'b, T: Primitive> std::ops::Add<&'a T> for &'b Checked<T> {
    type Output = Checked<T>;

    fn add(self, other: &'a T) -> (r: Checked<T>)
        ensures
            r == (*self).sum(Checked(Some(*other))),
    {
        *self + *other
    }
}

impl<'a, 'b, T: Primitive> vstd::std_specs::ops::AddSpecImpl<&'a T> for &'b Checked<T> {
    open spec fn obeys_add_spec() -> bool {
        true
    }

    open spec fn add_req(self, other: &'a T) -> bool {
        true
    }

    open spec fn add_spec(self, other: &'a T) -> Checked<T> {
        (*self).sum(Checked(Some(*other)))
    }
}

/// `checked += checked`: `self` becomes what `+` yields.
impl<T: Primitive> std::ops::AddAssign for Checked<T> {
    fn add_assign(&mut self, other: Checked<T>)
        ensures
            *final(self) == (*old(self)).sum(other),
    {
        *self = *self + other;
    }
}

/// `checked += raw`.
impl<T: Primitive> std::ops::AddAssign<T> for Checked<T> {
    fn add_assign(&mut self, other: T)
        ensures
            *final(self) == (*old(self)).sum(Checked(Some(other))),
    {
        *self = *self + other;
    }
}

} // verus!
