//! How checked integers are ordered.
//!
//! Two valid integers are ordered as the integers they hold. The overflow mark equals itself
//! and is neither below nor above any valid integer: a comparison between the mark and a valid
//! integer has no answer, whichever side the mark stands on.

use crate::num::Checked;
use std::cmp::Ordering;
use vstd::prelude::*;
use vstd::std_specs::cmp::PartialOrdSpec;

verus! {

impl<T: PartialOrd> PartialOrd for Checked<T> {
    fn partial_cmp(&self, other: &Checked<T>) -> (r: Option<Ordering>) {
        match (&self.0, &other.0) {
            (Some(x), Some(y)) => x.partial_cmp(y),
            (None, None) => Some(Ordering::Equal),
            _ => None,
        }
    }
}

impl<T: PartialOrd> vstd::std_specs::cmp::PartialOrdSpecImpl for Checked<T> {
    open spec fn obeys_partial_cmp_spec() -> bool {
        T::obeys_partial_cmp_spec()
    }

    open spec fn partial_cmp_spec(&self, other: &Checked<T>) -> Option<Ordering> {
        match (self.0, other.0) {
            (Some(x), Some(y)) => x.partial_cmp_spec(&y),
            (None, None) => Some(Ordering::Equal),
            _ => None,
        }
    }
}

/// The overflow mark is incomparable to every valid integer, in both directions, and equal
/// to itself; two valid integers compare as the integers they hold.
pub proof fn law_overflow_is_incomparable<T: PartialOrd>(x: T, y: T)
    ensures
        Checked::<T>(None).partial_cmp_spec(&Checked(Some(x))) is None,
        Checked(Some(x)).partial_cmp_spec(&Checked::<T>(None)) is None,
        Checked::<T>(None).partial_cmp_spec(&Checked::<T>(None)) == Some(Ordering::Equal),
        Checked(Some(x)).partial_cmp_spec(&Checked(Some(y))) == x.partial_cmp_spec(&y),
{
}

} // verus!
