//! `*`: the multiplication of checked integers.

use crate::num::Checked;
use crate::width::Primitive;
use vstd::prelude::*;

verus! {

/// `checked * checked`: overflowed if either operand is, or if the primitive fails.
impl<T: Primitive> std::ops::Mul for Checked<T> {
    type Output = Checked<T>;

    fn mul(self, other: Checked<T>) -> (r: Checked<T>)
        ensures
            r == self.product(other),
    {
        match (self.0, other.0) {
            (Some(x), Some(y)) => Checked(x.checked_mul(y)),
            _ => Checked(None),
        }
    }
}

impl<T: Primitive> vstd::std_specs::ops::MulSpecImpl for Checked<T> {
    open spec fn obeys_mul_spec() -> bool {
        true
    }

    open spec fn mul_req(self, other: Checked<T>) -> bool {
        true
    }

    open spec fn mul_spec(self, other: Checked<T>) -> Checked<T> {
        self.product(other)
    }
}

/// `checked * raw`: the raw integer counts as valid.
impl<T: Primitive> std::ops::Mul<T> for Checked<T> {
    type Output = Checked<T>;

    fn mul(self, other: T) -> (r: Checked<T>)
        ensures
            r == self.product(Checked(Some(other))),
    {
        match self.0 {
            Some(x) => Checked(x.checked_mul(other)),
            None => Checked(None),
        }
    }
}

impl<T: Primitive> vstd::std_specs::ops::MulSpecImpl<T> for Checked<T> {
    open spec fn obeys_mul_spec() -> bool {
        true
    }

    open spec fn mul_req(self, other: T) -> bool {
        true
    }

    open spec fn mul_spec(self, other: T) -> Checked<T> {
        self.product(Checked(Some(other)))
    }
}

/// `&checked * checked`.
impl<'a, T: Primitive> std::ops::Mul<Checked<T>> for &'a Checked<T> {
    type Output = Checked<T>;

    fn mul(self, other: Checked<T>) -> (r: Checked<T>)
        ensures
            r == (*self).product(other),
    {
        *self * other
    }
}

impl<'a, T: Primitive> vstd::std_specs::ops::MulSpecImpl<Checked<T>> for &'a Checked<T> {
    open spec fn obeys_mul_spec() -> bool {
        true
    }

    open spec fn mul_req(self, other: Checked<T>) -> bool {
        true
    }

    open spec fn mul_spec(self, other: Checked<T>) -> Checked<T> {
        (*self).product(other)
    }
}

/// `checked * &checked`.
impl<'a, T: Primitive> std::ops::Mul<&'a Checked<T>> for Checked<T> {
    type Output = Checked<T>;

    fn mul(self, other: &'a Checked<T>) -> (r: Checked<T>)
        ensures
            r == self.product(*other),
    {
        self * *other
    }
}

impl<'a, T: Primitive> vstd::std_specs::ops::MulSpecImpl<&'a Checked<T>> for Checked<T> {
    open spec fn obeys_mul_spec() -> bool {
        true
    }

    open spec fn mul_req(self, other: &'a Checked<T>) -> bool {
        true
    }

    open spec fn mul_spec(self, other: &'a Checked<T>) -> Checked<T> {
        self.product(*other)
    }
}

/// `&checked * &checked`.
impl<'a, 'b, T: Primitive> std::ops::Mul<&'a Checked<T>> for &'b Checked<T> {
    type Output = Checked<T>;

    fn mul(self, other: &'a Checked<T>) -> (r: Checked<T>)
        ensures
            r == (*self).product(*other),
    {
        *self * *other
    }
}

impl<'a, 'b, T: Primitive> vstd::std_specs::ops::MulSpecImpl<&'a Checked<T>> for &'b Checked<T> {
    open spec fn obeys_mul_spec() -> bool {
        true
    }

    open spec fn mul_req(self, other: &'a Checked<T>) -> bool {
        true
    }

    open spec fn mul_spec(self, other: &'a Checked<T>) -> Checked<T> {
        (*self).product(*other)
    }
}

/// `&checked * raw`.
impl<'a, T: Primitive> std::ops::Mul<T> for &'a Checked<T> {
    type Output = Checked<T>;

    fn mul(self, other: T) -> (r: Checked<T>)
        ensures
            r == (*self).product(Checked(Some(other))),
    {
        *self * other
    }
}

impl<'a, T: Primitive> vstd::std_specs::ops::MulSpecImpl<T> for &'a Checked<T> {
    open spec fn obeys_mul_spec() -> bool {
        true
    }

    open spec fn mul_req(self, other: T) -> bool {
        true
    }

    open spec fn mul_spec(self, other: T) -> Checked<T> {
        (*self).product(Checked(Some(other)))
    }
}

/// `checked * &raw`.
impl<'a, T: Primitive> std::ops::Mul<&'a T> for Checked<T> {
    type Output = Checked<T>;

    fn mul(self, other: &'a T) -> (r: Checked<T>)
        ensures
            r == self.product(Checked(Some(*other))),
    {
        self * *other
    }
}

impl<'a, T: Primitive> vstd::std_specs::ops::MulSpecImpl<&'a T> for Checked<T> {
    open spec fn obeys_mul_spec() -> bool {
        true
    }

    open spec fn mul_req(self, other: &'a T) -> bool {
        true
    }

    open spec fn mul_spec(self, other: &'a T) -> Checked<T> {
        self.product(Checked(Some(*other)))
    }
}

/// `&checked * &raw`.
impl<'a, 'b, T: Primitive> std::ops::Mul<&'a T> for &'b Checked<T> {
    type Output = Checked<T>;

    fn mul(self, other: &'a T) -> (r: Checked<T>)
        ensures
            r == (*self).product(Checked(Some(*other))),
    {
        *self * *other
    }
}

impl<'a, 'b, T: Primitive> vstd::std_specs::ops::MulSpecImpl<&'a T> for &'b Checked<T> {
    open spec fn obeys_mul_spec() -> bool {
        true
    }

    open spec fn mul_req(self, other: &'a T) -> bool {
        true
    }

    open spec fn mul_spec(self, other: &'a T) -> Checked<T> {
        (*self).product(Checked(Some(*other)))
    }
}

/// `checked *= checked`: `self` becomes what `*` yields.
impl<T: Primitive> std::ops::MulAssign for Checked<T> {
    fn mul_assign(&mut self, other: Checked<T>)
        ensures
            *final(self) == (*old(self)).product(other),
    {
        *self = *self * other;
    }
}

/// `checked *= raw`.
impl<T: Primitive> std::ops::MulAssign<T> for Checked<T> {
    fn mul_assign(&mut self, other: T)
        ensures
            *final(self) == (*old(self)).product(Checked(Some(other))),
    {
        *self = *self * other;
    }
}

} // verus!
