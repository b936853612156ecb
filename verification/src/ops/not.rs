//! `!`: the bitwise complement of a checked integer.

use crate::num::Checked;
use crate::width::Primitive;
use vstd::prelude::*;

verus! {

/// `!checked`: overflowed if the operand is, and never otherwise.
impl<T: Primitive> std::ops::Not for Checked<T> {
    type Output = Checked<T>;

    fn not(self) -> (r: Checked<T>)
        ensures
            r == self.flipped(),
    {
        match self.0 {
            Some(x) => Checked(Some(x.not_bits())),
            None => Checked(None),
        }
    }
}

impl<T: Primitive> vstd::std_specs::ops::NotSpecImpl for Checked<T> {
    open spec fn obeys_not_spec() -> bool {
        true
    }

    open spec fn not_req(self) -> bool {
        true
    }

    open spec fn not_spec(self) -> Checked<T> {
        self.flipped()
    }
}

/// `!&checked`.
impl<'a, T: Primitive> std::ops::Not for &'a Checked<T> {
    type Output = Checked<T>;

    fn not(self) -> (r: Checked<T>)
        ensures
            r == (*self).flipped(),
    {
        std::ops::Not::not(*self)
    }
}

impl<'a, T: Primitive> vstd::std_specs::ops::NotSpecImpl for &'a Checked<T> {
    open spec fn obeys_not_spec() -> bool {
        true
    }

    open spec fn not_req(self) -> bool {
        true
    }

    open spec fn not_spec(self) -> Checked<T> {
        (*self).flipped()
    }
}

} // verus!
