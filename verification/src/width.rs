//! Fixed-width integers, read as mathematical integers.
//!
//! [`FixedWidth`] gives every primitive integer type a value in `int`, a range and a bit width.
//! The outcome of each checked primitive is defined once, over that model, by the spec
//! functions of this module. [`Primitive`] adds the executable primitives, each of which
//! returns exactly what the corresponding spec function says.

use vstd::prelude::*;

verus! {

/// The mathematical model of a fixed-width integer type.
pub trait FixedWidth: Copy + Sized {
    /// The integer that `self` denotes.
    spec fn value(self) -> int;

    /// The least value of the type.
    spec fn lowest() -> int;

    /// The greatest value of the type.
    spec fn highest() -> int;

    /// The number of bits of the type.
    spec fn bits() -> int;

    /// The member of the type that denotes `v`, for `v` in range.
    spec fn from_value(v: int) -> Self;

    /// Every bit of `self` flipped.
    spec fn complement(self) -> Self;

    /// The bits set in both `self` and `rhs`.
    spec fn bit_and(self, rhs: Self) -> Self;

    /// The bits set in `self` or in `rhs`.
    spec fn bit_or(self, rhs: Self) -> Self;

    /// The bits set in exactly one of `self` and `rhs`.
    spec fn bit_xor(self, rhs: Self) -> Self;

    /// `self` with its bits moved `n` places up; bits moved past the top are lost.
    spec fn shifted_left(self, n: u32) -> Self;

    /// `self` with its bits moved `n` places down.
    spec fn shifted_right(self, n: u32) -> Self;

    /// A value lies within the range of its type, and the range is not empty around zero.
    proof fn lemma_value_in_range(self)
        ensures
            Self::lowest() <= self.value() <= Self::highest(),
            Self::lowest() <= 0 < Self::highest(),
            Self::bits() > 0,
    ;

    /// Every integer in range is the value of the member that `from_value` names.
    proof fn lemma_from_value(v: int)
        requires
            Self::lowest() <= v <= Self::highest(),
        ensures
            Self::from_value(v).value() == v,
    ;

    /// Two members with the same value are the same member.
    proof fn lemma_value_injective(self, other: Self)
        requires
            self.value() == other.value(),
        ensures
            self == other,
    ;
}

/// Whether `v` lies within the range of `T`.
pub open spec fn in_range<T: FixedWidth>(v: int) -> bool {
    T::lowest() <= v <= T::highest()
}

/// `v` as a member of `T`, if it fits.
pub open spec fn narrow<T: FixedWidth>(v: int) -> Option<T> {
    if in_range::<T>(v) {
        Some(T::from_value(v))
    } else {
        None
    }
}

/// The distance of `v` from zero.
pub open spec fn magnitude(v: int) -> int {
    if v < 0 {
        -v
    } else {
        v
    }
}

/// The quotient of `a` by `b`, rounded toward zero.
pub open spec fn truncated_quotient(a: int, b: int) -> int
    recommends
        b != 0,
{
    if (a < 0) == (b < 0) {
        magnitude(a) / magnitude(b)
    } else {
        -(magnitude(a) / magnitude(b))
    }
}

/// What is left of `a` after division by `b` rounded toward zero: it has the sign of `a`.
pub open spec fn truncated_remainder(a: int, b: int) -> int
    recommends
        b != 0,
{
    if a < 0 {
        -(magnitude(a) % magnitude(b))
    } else {
        magnitude(a) % magnitude(b)
    }
}

/// Division rounded toward zero splits `a` into a multiple of `b` and a remainder that is
/// nearer to zero than `b`; neither the quotient nor the remainder is further from zero
/// than `a`.
pub proof fn lemma_truncated_division(a: int, b: int)
    requires
        b != 0,
    ensures
        a == b * truncated_quotient(a, b) + truncated_remainder(a, b),
        magnitude(truncated_remainder(a, b)) < magnitude(b),
        magnitude(truncated_remainder(a, b)) <= magnitude(a),
        magnitude(truncated_quotient(a, b)) <= magnitude(a),
        magnitude(b) > 1 && a != 0 ==> magnitude(truncated_quotient(a, b)) < magnitude(a),
        magnitude(b) == 1 ==> magnitude(truncated_quotient(a, b)) == magnitude(a),
        a == 0 ==> truncated_quotient(a, b) == 0 && truncated_remainder(a, b) == 0,
{
    let x = magnitude(a);
    let d = magnitude(b);
    let q = x / d;
    let r = x % d;
    assert(0 <= q <= x && 0 <= r < d && x == d * q + r) by (nonlinear_arith)
        requires
            x >= 0,
            d > 0,
            q == x / d,
            r == x % d,
    ;
    assert(r <= x) by (nonlinear_arith)
        requires
            x == d * q + r,
            0 <= q,
            0 < d,
    ;
    assert(d > 1 && x > 0 ==> q < x) by (nonlinear_arith)
        requires
            x == d * q + r,
            0 <= r < d,
            0 <= q,
    ;
    assert(d == 1 ==> q == x) by (nonlinear_arith)
        requires
            x == d * q + r,
            0 <= r < d,
    ;
    assert(x == 0 ==> q == 0 && r == 0) by (nonlinear_arith)
        requires
            x == d * q + r,
            0 <= r < d,
            0 <= q,
            d > 0,
    ;
    assert(a == b * truncated_quotient(a, b) + truncated_remainder(a, b)) by (nonlinear_arith)
        requires
            x == d * q + r,
            x == magnitude(a),
            d == magnitude(b),
            truncated_quotient(a, b) == (if (a < 0) == (b < 0) {
                q
            } else {
                -q
            }),
            truncated_remainder(a, b) == (if a < 0 {
                -r
            } else {
                r
            }),
    ;
}

/// `a + b`, unless the sum leaves the range of `T`.
pub open spec fn checked_sum<T: FixedWidth>(a: T, b: T) -> Option<T> {
    narrow(a.value() + b.value())
}

/// `a - b`, unless the difference leaves the range of `T`.
pub open spec fn checked_difference<T: FixedWidth>(a: T, b: T) -> Option<T> {
    narrow(a.value() - b.value())
}

/// `a * b`, unless the product leaves the range of `T`.
pub open spec fn checked_product<T: FixedWidth>(a: T, b: T) -> Option<T> {
    narrow(a.value() * b.value())
}

/// `a / b` rounded toward zero, unless `b` is zero or the quotient leaves the range of `T`.
pub open spec fn checked_quotient<T: FixedWidth>(a: T, b: T) -> Option<T> {
    if b.value() == 0 {
        None
    } else {
        narrow(truncated_quotient(a.value(), b.value()))
    }
}

/// The remainder of `a / b`, unless `b` is zero or the quotient leaves the range of `T`.
pub open spec fn checked_remainder<T: FixedWidth>(a: T, b: T) -> Option<T> {
    if b.value() == 0 || !in_range::<T>(truncated_quotient(a.value(), b.value())) {
        None
    } else {
        narrow(truncated_remainder(a.value(), b.value()))
    }
}

/// `-a`, unless that leaves the range of `T`.
pub open spec fn checked_negation<T: FixedWidth>(a: T) -> Option<T> {
    narrow(-a.value())
}

/// `a` shifted left by `n` bits, unless `n` is not less than the width of `T`.
pub open spec fn checked_shift_left<T: FixedWidth>(a: T, n: u32) -> Option<T> {
    if n < T::bits() {
        Some(a.shifted_left(n))
    } else {
        None
    }
}

/// `a` shifted right by `n` bits, unless `n` is not less than the width of `T`.
pub open spec fn checked_shift_right<T: FixedWidth>(a: T, n: u32) -> Option<T> {
    if n < T::bits() {
        Some(a.shifted_right(n))
    } else {
        None
    }
}

/// The executable primitives of a fixed-width integer type.
///
/// Each checked primitive computes its result only when the result fits the type exactly,
/// and reports `None` otherwise. The bitwise primitives cannot fail.
pub trait Primitive: FixedWidth {
    fn checked_add(self, rhs: Self) -> (r: Option<Self>)
        ensures
            r == checked_sum(self, rhs),
    ;

    fn checked_sub(self, rhs: Self) -> (r: Option<Self>)
        ensures
            r == checked_difference(self, rhs),
    ;

    fn checked_mul(self, rhs: Self) -> (r: Option<Self>)
        ensures
            r == checked_product(self, rhs),
    ;

    fn checked_div(self, rhs: Self) -> (r: Option<Self>)
        ensures
            r == checked_quotient(self, rhs),
    ;

    fn checked_rem(self, rhs: Self) -> (r: Option<Self>)
        ensures
            r == checked_remainder(self, rhs),
    ;

    fn checked_neg(self) -> (r: Option<Self>)
        ensures
            r == checked_negation(self),
    ;

    fn checked_shl(self, n: u32) -> (r: Option<Self>)
        ensures
            r == checked_shift_left(self, n),
    ;

    fn checked_shr(self, n: u32) -> (r: Option<Self>)
        ensures
            r == checked_shift_right(self, n),
    ;

    /// The integer that `self` denotes, in a type wide enough for every width.
    fn widen(self) -> (r: i128)
        ensures
            r == self.value(),
    ;

    fn not_bits(self) -> (r: Self)
        ensures
            r == self.complement(),
    ;

    fn and_bits(self, rhs: Self) -> (r: Self)
        ensures
            r == self.bit_and(rhs),
    ;

    fn or_bits(self, rhs: Self) -> (r: Self)
        ensures
            r == self.bit_or(rhs),
    ;

    fn xor_bits(self, rhs: Self) -> (r: Self)
        ensures
            r == self.bit_xor(rhs),
    ;
}

} // verus!
