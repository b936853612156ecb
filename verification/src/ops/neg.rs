//! `-`: the negation of a checked integer.

use crate::num::Checked;
use crate::width::Primitive;
use vstd::prelude::*;

verus! {

/// `-checked`: overflowed if the operand is, or if the primitive fails.
impl<T: Primitive> std::ops::Neg for Checked<T> {
    type Output = Checked<T>;

    fn neg(self) -> (r: Checked<T>)
        ensures
            r == self.negation(),
    {
        match self.0 {
            Some(x) => Checked(x.checked_neg()),
            None => Checked(None),
        }
    }
}

impl<T: Primitive> vstd::std_specs::ops::NegSpecImpl for Checked<T> {
    open spec fn obeys_neg_spec() -> bool {
        true
    }

    open spec fn neg_req(self) -> bool {
        true
    }

    open spec fn neg_spec(self) -> Checked<T> {
        self.negation()
    }
}

/// `-&checked`.
impl<'a, T: Primitive> std::ops::Neg for &'a Checked<T> {
    type Output = Checked<T>;

    fn neg(self) -> (r: Checked<T>)
        ensures
            r == (*self).negation(),
    {
        std::ops::Neg::neg(*self)
    }
}

impl<'a, T: Primitive> vstd::std_specs::ops::NegSpecImpl for &'a Checked<T> {
    open spec fn obeys_neg_spec() -> bool {
        true
    }

    open spec fn neg_req(self) -> bool {
        true
    }

    open spec fn neg_spec(self) -> Checked<T> {
        (*self).negation()
    }
}

} // verus!
