//! `|`: the bitwise or of checked integers.

use crate::num::Checked;
use crate::width::Primitive;
use vstd::prelude::*;

verus! {

/// `checked | checked`: overflowed if either operand is, and never otherwise.
impl<T: Primitive> std::ops::BitOr for Checked<T> {
    type Output = Checked<T>;

    fn bitor(self, other: Checked<T>) -> (r: Checked<T>)
        ensures
            r == self.disjunction(other),
    {
        match (self.0, other.0) {
            (Some(x), Some(y)) => Checked(Some(x.or_bits(y))),
            _ => Checked(None),
        }
    }
}

impl<T: Primitive> vstd::std_specs::ops::BitOrSpecImpl for Checked<T> {
    open spec fn obeys_bitor_spec() -> bool {
        true
    }

    open spec fn bitor_req(self, other: Checked<T>) -> bool {
        true
    }

    open spec fn bitor_spec(self, other: Checked<T>) -> Checked<T> {
        self.disjunction(other)
    }
}

/// `checked | raw`: the raw integer counts as valid.
impl<T: Primitive> std::ops::BitOr<T> for Checked<T> {
    type Output = Checked<T>;

    fn bitor(self, other: T) -> (r: Checked<T>)
        ensures
            r == self.disjunction(Checked(Some(other))),
    {
        match self.0 {
            Some(x) => Checked(Some(x.or_bits(other))),
            None => Checked(None),
        }
    }
}

impl<T: Primitive> vstd::std_specs::ops::BitOrSpecImpl<T> for Checked<T> {
    open spec fn obeys_bitor_spec() -> bool {
        true
    }

    open spec fn bitor_req(self, other: T) -> bool {
        true
    }

    open spec fn bitor_spec(self, other: T) -> Checked<T> {
        self.disjunction(Checked(Some(other)))
    }
}

/// `&checked | checked`.
impl<'a, T: Primitive> std::ops::BitOr<Checked<T>> for &'a Checked<T> {
    type Output = Checked<T>;

    fn bitor(self, other: Checked<T>) -> (r: Checked<T>)
        ensures
            r == (*self).disjunction(other),
    {
        *self | other
    }
}

impl<'a, T: Primitive> vstd::std_specs::ops::BitOrSpecImpl<Checked<T>> for &'a Checked<T> {
    open spec fn obeys_bitor_spec() -> bool {
        true
    }

    open spec fn bitor_req(self, other: Checked<T>) -> bool {
        true
    }

    open spec fn bitor_spec(self, other: Checked<T>) -> Checked<T> {
        (*self).disjunction(other)
    }
}

/// `checked | &checked`.
impl<'a, T: Primitive> std::ops::BitOr<&'a Checked<T>> for Checked<T> {
    type Output = Checked<T>;

    fn bitor(self, other: &'a Checked<T>) -> (r: Checked<T>)
        ensures
            r == self.disjunction(*other),
    {
        self | *other
    }
}

impl<'a, T: Primitive> vstd::std_specs::ops::BitOrSpecImpl<&'a Checked<T>> for Checked<T> {
    open spec fn obeys_bitor_spec() -> bool {
        true
    }

    open spec fn bitor_req(self, other: &'a Checked<T>) -> bool {
        true
    }

    open spec fn bitor_spec(self, other: &'a Checked<T>) -> Checked<T> {
        self.disjunction(*other)
    }
}

/// `&checked | &checked`.
impl<'a, 'b, T: Primitive> std::ops::BitOr<&'a Checked<T>> for &'b Checked<T> {
    type Output = Checked<T>;

    fn bitor(self, other: &'a Checked<T>) -> (r: Checked<T>)
        ensures
            r == (*self).disjunction(*other),
    {
        *self | *other
    }
}

impl<'a, 'b, T: Primitive> vstd::std_specs::ops::BitOrSpecImpl<&'a Checked<T>> for &'b Checked<T> {
    open spec fn obeys_bitor_spec() -> bool {
        true
    }

    open spec fn bitor_req(self, other: &'a Checked<T>) -> bool {
        true
    }

    open spec fn bitor_spec(self, other: &'a Checked<T>) -> Checked<T> {
        (*self).disjunction(*other)
    }
}

/// `&checked | raw`.
impl<'a, T: Primitive> std::ops::BitOr<T> for &'a Checked<T> {
    type Output = Checked<T>;

    fn bitor(self, other: T) -> (r: Checked<T>)
        ensures
            r == (*self).disjunction(Checked(Some(other))),
    {
        *self | other
    }
}

impl<'a, T: Primitive> vstd::std_specs::ops::BitOrSpecImpl<T> for &'a Checked<T> {
    open spec fn obeys_bitor_spec() -> bool {
        true
    }

    open spec fn bitor_req(self, other: T) -> bool {
        true
    }

    open spec fn bitor_spec(self, other: T) -> Checked<T> {
        (*self).disjunction(Checked(Some(other)))
    }
}

/// `checked | &raw`.
impl<'a, T: Primitive> std::ops::BitOr<&'a T> for Checked<T> {
    type Output = Checked<T>;

    fn bitor(self, other: &'a T) -> (r: Checked<T>)
        ensures
            r == self.disjunction(Checked(Some(*other))),
    {
        self | *other
    }
}

impl<'a, T: Primitive> vstd::std_specs::ops::BitOrSpecImpl<&'a T> for Checked<T> {
    open spec fn obeys_bitor_spec() -> bool {
        true
    }

    open spec fn bitor_req(self, other: &'a T) -> bool {
        true
    }

    open spec fn bitor_spec(self, other: &'a T) -> Checked<T> {
        self.disjunction(Checked(Some(*other)))
    }
}

/// `&checked | &raw`.
impl<'a, 'b, T: Primitive> std::ops::BitOr<&'a T> for &'b Checked<T> {
    type Output = Checked<T>;

    fn bitor(self, other: &'a T) -> (r: Checked<T>)
        ensures
            r == (*self).disjunction(Checked(Some(*other))),
    {
        *self | *other
    }
}

impl<'a, 'b, T: Primitive> vstd::std_specs::ops::BitOrSpecImpl<&'a T> for &'b Checked<T> {
    open spec fn obeys_bitor_spec() -> bool {
        true
    }

    open spec fn bitor_req(self, other: &'a T) -> bool {
        true
    }

    open spec fn bitor_spec(self, other: &'a T) -> Checked<T> {
        (*self).disjunction(Checked(Some(*other)))
    }
}

/// `checked |= checked`: `self` becomes what `|` yields.
impl<T: Primitive> std::ops::BitOrAssign for Checked<T> {
    fn bitor_assign(&mut self, other: Checked<T>)
        ensures
            *final(self) == (*old(self)).disjunction(other),
    {
        *self = *self | other;
    }
}

/// `checked |= raw`.
impl<T: Primitive> std::ops::BitOrAssign<T> for Checked<T> {
    fn bitor_assign(&mut self, other: T)
        ensures
            *final(self) == (*old(self)).disjunction(Checked(Some(other))),
    {
        *self = *self | other;
    }
}

} // verus!
