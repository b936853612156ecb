//! `&`: the bitwise and of checked integers.

use crate::num::Checked;
use crate::width::Primitive;
use vstd::prelude::*;

verus! {

/// `checked & checked`: overflowed if either operand is, and never otherwise.
impl<T: Primitive> std::ops::BitAnd for Checked<T> {
    type Output = Checked<T>;

    fn bitand(self, other: Checked<T>) -> (r: Checked<T>)
        ensures
            r == self.conjunction(other),
    {
        match (self.0, other.0) {
            (Some(x), Some(y)) => Checked(Some(x.and_bits(y))),
            _ => Checked(None),
        }
    }
}

impl<T: Primitive> vstd::std_specs::ops::BitAndSpecImpl for Checked<T> {
    open spec fn obeys_bitand_spec() -> bool {
        true
    }

    open spec fn bitand_req(self, other: Checked<T>) -> bool {
        true
    }

    open spec fn bitand_spec(self, other: Checked<T>) -> Checked<T> {
        self.conjunction(other)
    }
}

/// `checked & raw`: the raw integer counts as valid.
impl<T: Primitive> std::ops::BitAnd<T> for Checked<T> {
    type Output = Checked<T>;

    fn bitand(self, other: T) -> (r: Checked<T>)
        ensures
            r == self.conjunction(Checked(Some(other))),
    {
        match self.0 {
            Some(x) => Checked(Some(x.and_bits(other))),
            None => Checked(None),
        }
    }
}

impl<T: Primitive> vstd::std_specs::ops::BitAndSpecImpl<T> for Checked<T> {
    open spec fn obeys_bitand_spec() -> bool {
        true
    }

    open spec fn bitand_req(self, other: T) -> bool {
        true
    }

    open spec fn bitand_spec(self, other: T) -> Checked<T> {
        self.conjunction(Checked(Some(other)))
    }
}

/// `&checked & checked`.
impl<'a, T: Primitive> std::ops::BitAnd<Checked<T>> for &'a Checked<T> {
    type Output = Checked<T>;

    fn bitand(self, other: Checked<T>) -> (r: Checked<T>)
        ensures
            r == (*self).conjunction(other),
    {
        *self & other
    }
}

impl<'a, T: Primitive> vstd::std_specs::ops::BitAndSpecImpl<Checked<T>> for &'a Checked<T> {
    open spec fn obeys_bitand_spec() -> bool {
        true
    }

    open spec fn bitand_req(self, other: Checked<T>) -> bool {
        true
    }

    open spec fn bitand_spec(self, other: Checked<T>) -> Checked<T> {
        (*self).conjunction(other)
    }
}

/// `checked & &checked`.
impl<'a, T: Primitive> std::ops::BitAnd<&'a Checked<T>> for Checked<T> {
    type Output = Checked<T>;

    fn bitand(self, other: &'a Checked<T>) -> (r: Checked<T>)
        ensures
            r == self.conjunction(*other),
    {
        self & *other
    }
}

impl<'a, T: Primitive> vstd::std_specs::ops::BitAndSpecImpl<&'a Checked<T>> for Checked<T> {
    open spec fn obeys_bitand_spec() -> bool {
        true
    }

    open spec fn bitand_req(self, other: &'a Checked<T>) -> bool {
        true
    }

    open spec fn bitand_spec(self, other: &'a Checked<T>) -> Checked<T> {
        self.conjunction(*other)
    }
}

/// `&checked & &checked`.
impl<'a, 'b, T: Primitive> std::ops::BitAnd<&'a Checked<T>> for &'b Checked<T> {
    type Output = Checked<T>;

    fn bitand(self, other: &'a Checked<T>) -> (r: Checked<T>)
        ensures
            r == (*self).conjunction(*other),
    {
        *self & *other
    }
}

impl<'a, 'b, T: Primitive> vstd::std_specs::ops::BitAndSpecImpl<&'a Checked<T>> for &'b Checked<T> {
    open spec fn obeys_bitand_spec() -> bool {
        true
    }

    open spec fn bitand_req(self, other: &'a Checked<T>) -> bool {
        true
    }

    open spec fn bitand_spec(self, other: &'a Checked<T>) -> Checked<T> {
        (*self).conjunction(*other)
    }
}

/// `&checked & raw`.
impl<'a, T: Primitive> std::ops::BitAnd<T> for &'a Checked<T> {
    type Output = Checked<T>;

    fn bitand(self, other: T) -> (r: Checked<T>)
        ensures
            r == (*self).conjunction(Checked(Some(other))),
    {
        *self & other
    }
}

impl<'a, T: Primitive> vstd::std_specs::ops::BitAndSpecImpl<T> for &'a Checked<T> {
    open spec fn obeys_bitand_spec() -> bool {
        true
    }

    open spec fn bitand_req(self, other: T) -> bool {
        true
    }

    open spec fn bitand_spec(self, other: T) -> Checked<T> {
        (*self).conjunction(Checked(Some(other)))
    }
}

/// `checked & &raw`.
impl<'a, T: Primitive> std::ops::BitAnd<&'a T> for Checked<T> {
    type Output = Checked<T>;

    fn bitand(self, other: &'a T) -> (r: Checked<T>)
        ensures
            r == self.conjunction(Checked(Some(*other))),
    {
        self & *other
    }
}

impl<'a, T: Primitive> vstd::std_specs::ops::BitAndSpecImpl<&'a T> for Checked<T> {
    open spec fn obeys_bitand_spec() -> bool {
        true
    }

    open spec fn bitand_req(self, other: &'a T) -> bool {
        true
    }

    open spec fn bitand_spec(self, other: &'a T) -> Checked<T> {
        self.conjunction(Checked(Some(*other)))
    }
}

/// `&checked & &raw`.
impl<'a, 'b, T: Primitive> std::ops::BitAnd<&'a T> for &'b Checked<T> {
    type Output = Checked<T>;

    fn bitand(self, other: &'a T) -> (r: Checked<T>)
        ensures
            r == (*self).conjunction(Checked(Some(*other))),
    {
        *self & *other
    }
}

impl<'a, 'b, T: Primitive> vstd::std_specs::ops::BitAndSpecImpl<&'a T> for &'b Checked<T> {
    open spec fn obeys_bitand_spec() -> bool {
        true
    }

    open spec fn bitand_req(self, other: &'a T) -> bool {
        true
    }

    open spec fn bitand_spec(self, other: &'a T) -> Checked<T> {
        (*self).conjunction(Checked(Some(*other)))
    }
}

/// `checked &= checked`: `self` becomes what `&` yields.
impl<T: Primitive> std::ops::BitAndAssign for Checked<T> {
    fn bitand_assign(&mut self, other: Checked<T>)
        ensures
            *final(self) == (*old(self)).conjunction(other),
    {
        *self = *self & other;
    }
}

/// `checked &= raw`.
impl<T: Primitive> std::ops::BitAndAssign<T> for Checked<T> {
    fn bitand_assign(&mut self, other: T)
        ensures
            *final(self) == (*old(self)).conjunction(Checked(Some(other))),
    {
        *self = *self & other;
    }
}

} // verus!
