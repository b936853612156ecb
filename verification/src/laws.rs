//! What holds of the operations on checked integers, whatever the operands.

use crate::num::Checked;
use crate::width::{
    in_range, lemma_truncated_division, truncated_quotient, truncated_remainder, FixedWidth,
    Primitive,
};
use vstd::prelude::*;
use vstd::std_specs::convert::{FromSpec, IntoSpec};
use vstd::std_specs::ops::{
    AddSpec, BitAndSpec, BitOrSpec, BitXorSpec, DivSpec, MulSpec, RemSpec, ShlSpec, ShrSpec,
    SubSpec,
};

verus! {

/// Where the sum of two integers fits their type, adding them as checked integers gives
/// that sum, valid.
pub proof fn law_sum_in_range<T: FixedWidth>(a: T, b: T)
    requires
        in_range::<T>(a.value() + b.value()),
    ensures
        Checked(Some(a)).sum(Checked(Some(b))) == Checked(Some(T::from_value(a.value() + b.value()))),
        Checked(Some(a)).sum(Checked(Some(b)))@ == Some(a.value() + b.value()),
{
    T::lemma_from_value(a.value() + b.value());
}

/// Where the sum of two integers does not fit their type, adding them as checked integers
/// overflows.
pub proof fn law_sum_out_of_range<T: FixedWidth>(a: T, b: T)
    requires
        !in_range::<T>(a.value() + b.value()),
    ensures
        Checked(Some(a)).sum(Checked(Some(b))) == Checked::<T>(None),
{
}

/// Each arithmetic operation on valid integers is exact or overflows: it yields the
/// mathematical result where that fits the type, and the overflow mark where it does not.
/// Division rounds toward zero, and fails for a zero divisor; the remainder fails wherever
/// the quotient does.
pub proof fn law_exact_or_overflowed<T: FixedWidth>(a: T, b: T)
    ensures
        Checked(Some(a)).sum(Checked(Some(b)))@ == (if in_range::<T>(a.value() + b.value()) {
            Some(a.value() + b.value())
        } else {
            None
        }),
        Checked(Some(a)).difference(Checked(Some(b)))@ == (if in_range::<T>(
            a.value() - b.value(),
        ) {
            Some(a.value() - b.value())
        } else {
            None
        }),
        Checked(Some(a)).product(Checked(Some(b)))@ == (if in_range::<T>(a.value() * b.value()) {
            Some(a.value() * b.value())
        } else {
            None
        }),
        Checked(Some(a)).negation()@ == (if in_range::<T>(-a.value()) {
            Some(-a.value())
        } else {
            None
        }),
        Checked(Some(a)).quotient(Checked(Some(b)))@ == (if b.value() != 0 && in_range::<T>(
            truncated_quotient(a.value(), b.value()),
        ) {
            Some(truncated_quotient(a.value(), b.value()))
        } else {
            None
        }),
        Checked(Some(a)).remainder(Checked(Some(b)))@ == (if b.value() != 0 && in_range::<T>(
            truncated_quotient(a.value(), b.value()),
        ) {
            Some(truncated_remainder(a.value(), b.value()))
        } else {
            None
        }),
{
    a.lemma_value_in_range();
    b.lemma_value_in_range();
    if in_range::<T>(a.value() + b.value()) {
        T::lemma_from_value(a.value() + b.value());
    }
    if in_range::<T>(a.value() - b.value()) {
        T::lemma_from_value(a.value() - b.value());
    }
    if in_range::<T>(a.value() * b.value()) {
        T::lemma_from_value(a.value() * b.value());
    }
    if in_range::<T>(-a.value()) {
        T::lemma_from_value(-a.value());
    }
    if b.value() != 0 {
        lemma_truncated_division(a.value(), b.value());
        if in_range::<T>(truncated_quotient(a.value(), b.value())) {
            T::lemma_from_value(truncated_quotient(a.value(), b.value()));
            T::lemma_from_value(truncated_remainder(a.value(), b.value()));
        }
    }
}

/// Dividing by zero overflows, for the quotient and for the remainder, whatever is divided.
pub proof fn law_division_by_zero<T: FixedWidth>(x: Checked<T>, zero: T)
    requires
        zero.value() == 0,
    ensures
        x.quotient(Checked(Some(zero))) == Checked::<T>(None),
        x.remainder(Checked(Some(zero))) == Checked::<T>(None),
{
}

/// The overflow mark propagates: every operation with the mark for an operand, on either
/// side, yields the mark.
pub proof fn law_overflow_propagates<T: FixedWidth>(x: Checked<T>, amount: Checked<u32>)
    ensures
        Checked::<T>(None).sum(x) == Checked::<T>(None),
        x.sum(Checked(None)) == Checked::<T>(None),
        Checked::<T>(None).difference(x) == Checked::<T>(None),
        x.difference(Checked(None)) == Checked::<T>(None),
        Checked::<T>(None).product(x) == Checked::<T>(None),
        x.product(Checked(None)) == Checked::<T>(None),
        Checked::<T>(None).quotient(x) == Checked::<T>(None),
        x.quotient(Checked(None)) == Checked::<T>(None),
        Checked::<T>(None).remainder(x) == Checked::<T>(None),
        x.remainder(Checked(None)) == Checked::<T>(None),
        Checked::<T>(None).conjunction(x) == Checked::<T>(None),
        x.conjunction(Checked(None)) == Checked::<T>(None),
        Checked::<T>(None).disjunction(x) == Checked::<T>(None),
        x.disjunction(Checked(None)) == Checked::<T>(None),
        Checked::<T>(None).exclusion(x) == Checked::<T>(None),
        x.exclusion(Checked(None)) == Checked::<T>(None),
        Checked::<T>(None).shifted_left(amount) == Checked::<T>(None),
        x.shifted_left(Checked(None)) == Checked::<T>(None),
        Checked::<T>(None).shifted_right(amount) == Checked::<T>(None),
        x.shifted_right(Checked(None)) == Checked::<T>(None),
        Checked::<T>(None).negation() == Checked::<T>(None),
        Checked::<T>(None).flipped() == Checked::<T>(None),
{
}

/// A raw integer on the right counts as the valid integer it is: every operator yields
/// between a checked and a raw integer what it yields between the two as checked integers.
pub proof fn law_raw_right_operand<T: Primitive>(x: Checked<T>, b: T, n: u32)
    ensures
        x.add_spec(b) == x.add_spec(Checked(Some(b))),
        x.sub_spec(b) == x.sub_spec(Checked(Some(b))),
        x.mul_spec(b) == x.mul_spec(Checked(Some(b))),
        x.div_spec(b) == x.div_spec(Checked(Some(b))),
        x.rem_spec(b) == x.rem_spec(Checked(Some(b))),
        x.bitand_spec(b) == x.bitand_spec(Checked(Some(b))),
        x.bitor_spec(b) == x.bitor_spec(Checked(Some(b))),
        x.bitxor_spec(b) == x.bitxor_spec(Checked(Some(b))),
        x.shl_spec(n) == x.shl_spec(Checked(Some(n))),
        x.shr_spec(n) == x.shr_spec(Checked(Some(n))),
{
}

/// A shift by an amount that is not less than the width of the type overflows; a shift of a
/// valid integer by a lesser amount is valid.
pub proof fn law_shift_amount<T: FixedWidth>(x: T, n: u32)
    ensures
        n >= T::bits() ==> Checked(Some(x)).shifted_left(Checked(Some(n))) == Checked::<T>(None),
        n >= T::bits() ==> Checked(Some(x)).shifted_right(Checked(Some(n))) == Checked::<T>(None),
        n < T::bits() ==> Checked(Some(x)).shifted_left(Checked(Some(n))) == Checked(
            Some(x.shifted_left(n)),
        ),
        n < T::bits() ==> Checked(Some(x)).shifted_right(Checked(Some(n))) == Checked(
            Some(x.shifted_right(n)),
        ),
{
}

/// The bitwise operations cannot fail: on valid integers they are valid.
pub proof fn law_bitwise_total<T: FixedWidth>(a: T, b: T)
    ensures
        Checked(Some(a)).conjunction(Checked(Some(b))) == Checked(Some(a.bit_and(b))),
        Checked(Some(a)).disjunction(Checked(Some(b))) == Checked(Some(a.bit_or(b))),
        Checked(Some(a)).exclusion(Checked(Some(b))) == Checked(Some(a.bit_xor(b))),
        Checked(Some(a)).flipped() == Checked(Some(a.complement())),
{
}

/// Taking a checked integer apart into an `Option` and wrapping that again gives the same
/// checked integer back, valid or overflowed; and the other way round.
pub proof fn law_round_trip<T>(x: Checked<T>, o: Option<T>)
    ensures
        <Checked<T> as FromSpec<Option<T>>>::from_spec(
            <Checked<T> as IntoSpec<Option<T>>>::into_spec(x),
        ) == x,
        <Checked<T> as IntoSpec<Option<T>>>::into_spec(
            <Checked<T> as FromSpec<Option<T>>>::from_spec(o),
        ) == o,
{
}

} // verus!
