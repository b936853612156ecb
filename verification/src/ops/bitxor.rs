//! `^`: the bitwise exclusive or of checked integers.

use crate::num::Checked;
use crate::width::Primitive;
use vstd::prelude::*;

verus! {

/// `checked ^ checked`: overflowed if either operand is, and never otherwise.
impl<T: Primitive> std::ops::BitXor for Checked<T> {
    type Output = Checked<T>;

    fn bitxor(self, other: Checked<T>) -> (r: Checked<T>)
        ensures
            r == self.exclusion(other),
    {
        match (self.0, other.0) {
            (Some(x), Some(y)) => Checked(Some(x.xor_bits(y))),
            _ => Checked(None),
        }
    }
}

impl<T: Primitive> vstd::std_specs::ops::BitXorSpecImpl for Checked<T> {
    open spec fn obeys_bitxor_spec() -> bool {
        true
    }

    open spec fn bitxor_req(self, other: Checked<T>) -> bool {
        true
    }

    open spec fn bitxor_spec(self, other: Checked<T>) -> Checked<T> {
        self.exclusion(other)
    }
}

/// `checked ^ raw`: the raw integer counts as valid.
impl<T: Primitive> std::ops::BitXor<T> for Checked<T> {
    type Output = Checked<T>;

    fn bitxor(self, other: T) -> (r: Checked<T>)
        ensures
            r == self.exclusion(Checked(Some(other))),
    {
        match self.0 {
            Some(x) => Checked(Some(x.xor_bits(other))),
            None => Checked(None),
        }
    }
}

impl<T: Primitive> vstd::std_specs::ops::BitXorSpecImpl<T> for Checked<T> {
    open spec fn obeys_bitxor_spec() -> bool {
        true
    }

    open spec fn bitxor_req(self, other: T) -> bool {
        true
    }

    open spec fn bitxor_spec(self, other: T) -> Checked<T> {
        self.exclusion(Checked(Some(other)))
    }
}

/// `&checked ^ checked`.
impl<'a, T: Primitive> std::ops::BitXor<Checked<T>> for &'a Checked<T> {
    type Output = Checked<T>;

    fn bitxor(self, other: Checked<T>) -> (r: Checked<T>)
        ensures
            r == (*self).exclusion(other),
    {
        *self ^ other
    }
}

impl<'a, T: Primitive> vstd::std_specs::ops::BitXorSpecImpl<Checked<T>> for &'a Checked<T> {
    open spec fn obeys_bitxor_spec() -> bool {
        true
    }

    open spec fn bitxor_req(self, other: Checked<T>) -> bool {
        true
    }

    open spec fn bitxor_spec(self, other: Checked<T>) -> Checked<T> {
        (*self).exclusion(other)
    }
}

/// `checked ^ &checked`.
impl<'a, T: Primitive> std::ops::BitXor<&'a Checked<T>> for Checked<T> {
    type Output = Checked<T>;

    fn bitxor(self, other: &'a Checked<T>) -> (r: Checked<T>)
        ensures
            r == self.exclusion(*other),
    {
        self ^ *other
    }
}

impl<'a, T: Primitive> vstd::std_specs::ops::BitXorSpecImpl<&'a Checked<T>> for Checked<T> {
    open spec fn obeys_bitxor_spec() -> bool {
        true
    }

    open spec fn bitxor_req(self, other: &'a Checked<T>) -> bool {
        true
    }

    open spec fn bitxor_spec(self, other: &'a Checked<T>) -> Checked<T> {
        self.exclusion(*other)
    }
}

/// `&checked ^ &checked`.
impl<'a, 'b, T: Primitive> std::ops::BitXor<&'a Checked<T>> for &'b Checked<T> {
    type Output = Checked<T>;

    fn bitxor(self, other: &'a Checked<T>) -> (r: Checked<T>)
        ensures
            r == (*self).exclusion(*other),
    {
        *self ^ *other
    }
}

impl<'a, 'b, T: Primitive> vstd::std_specs::ops::BitXorSpecImpl<&'a Checked<T>> for &'b Checked<T> {
    open spec fn obeys_bitxor_spec() -> bool {
        true
    }

    open spec fn bitxor_req(self, other: &'a Checked<T>) -> bool {
        true
    }

    open spec fn bitxor_spec(self, other: &'a Checked<T>) -> Checked<T> {
        (*self).exclusion(*other)
    }
}

/// `&checked ^ raw`.
impl<'a, T: Primitive> std::ops::BitXor<T> for &'a Checked<T> {
    type Output = Checked<T>;

    fn bitxor(self, other: T) -> (r: Checked<T>)
        ensures
            r == (*self).exclusion(Checked(Some(other))),
    {
        *self ^ other
    }
}

impl<'a, T: Primitive> vstd::std_specs::ops::BitXorSpecImpl<T> for &'a Checked<T> {
    open spec fn obeys_bitxor_spec() -> bool {
        true
    }

    open spec fn bitxor_req(self, other: T) -> bool {
        true
    }

    open spec fn bitxor_spec(self, other: T) -> Checked<T> {
        (*self).exclusion(Checked(Some(other)))
    }
}

/// `checked ^ &raw`.
impl<'a, T: Primitive> std::ops::BitXor<&'a T> for Checked<T> {
    type Output = Checked<T>;

    fn bitxor(self, other: &'a T) -> (r: Checked<T>)
        ensures
            r == self.exclusion(Checked(Some(*other))),
    {
        self ^ *other
    }
}

impl<'a, T: Primitive> vstd::std_specs::ops::BitXorSpecImpl<&'a T> for Checked<T> {
    open spec fn obeys_bitxor_spec() -> bool {
        true
    }

    open spec fn bitxor_req(self, other: &'a T) -> bool {
        true
    }

    open spec fn bitxor_spec(self, other: &'a T) -> Checked<T> {
        self.exclusion(Checked(Some(*other)))
    }
}

/// `&checked ^ &raw`.
impl<'a, 'b, T: Primitive> std::ops::BitXor<&'a T> for &'b Checked<T> {
    type Output = Checked<T>;

    fn bitxor(self, other: &'a T) -> (r: Checked<T>)
        ensures
            r == (*self).exclusion(Checked(Some(*other))),
    {
        *self ^ *other
    }
}

impl<'a, 'b, T: Primitive> vstd::std_specs::ops::BitXorSpecImpl<&'a T> for &'b Checked<T> {
    open spec fn obeys_bitxor_spec() -> bool {
        true
    }

    open spec fn bitxor_req(self, other: &'a T) -> bool {
        true
    }

    open spec fn bitxor_spec(self, other: &'a T) -> Checked<T> {
        (*self).exclusion(Checked(Some(*other)))
    }
}

/// `checked ^= checked`: `self` becomes what `^` yields.
impl<T: Primitive> std::ops::BitXorAssign for Checked<T> {
    fn bitxor_assign(&mut self, other: Checked<T>)
        ensures
            *final(self) == (*old(self)).exclusion(other),
    {
        *self = *self ^ other;
    }
}

/// `checked ^= raw`.
impl<T: Primitive> std::ops::BitXorAssign<T> for Checked<T> {
    fn bitxor_assign(&mut self, other: T)
        ensures
            *final(self) == (*old(self)).exclusion(Checked(Some(other))),
    {
        *self = *self ^ other;
    }
}

} // verus!
