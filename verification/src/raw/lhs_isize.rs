//! The operators with a raw `isize` on the left and a checked integer on the right.
//!
//! The raw integer counts as valid: each operator yields what it yields between two
//! checked integers.

use crate::num::Checked;
use vstd::prelude::*;
use vstd::std_specs::ops::{
    AddSpec, BitAndSpec, BitOrSpec, BitXorSpec, DivSpec, MulSpec, RemSpec, ShlSpec, ShrSpec,
    SubSpec,
};

verus! {

/// `raw + checked`: the addition of a raw and a checked `isize`.
impl std::ops::Add<Checked<isize>> for isize {
    type Output = Checked<isize>;

    fn add(self, other: Checked<isize>) -> (r: Checked<isize>)
        ensures
            r == Checked(Some(self)).sum(other),
    {
        Checked(Some(self)) + other
    }
}

impl vstd::std_specs::ops::AddSpecImpl<Checked<isize>> for isize {
    open spec fn obeys_add_spec() -> bool {
        true
    }

    open spec fn add_req(self, other: Checked<isize>) -> bool {
        true
    }

    open spec fn add_spec(self, other: Checked<isize>) -> Checked<isize> {
        Checked(Some(self)).sum(other)
    }
}

/// `&raw + checked`.
impl<'a> std::ops::Add<Checked<isize>> for &'a isize {
    type Output = Checked<isize>;

    fn add(self, other: Checked<isize>) -> (r: Checked<isize>)
        ensures
            r == Checked(Some(*self)).sum(other),
    {
        *self + other
    }
}

impl<'a> vstd::std_specs::ops::AddSpecImpl<Checked<isize>> for &'a isize {
    open spec fn obeys_add_spec() -> bool {
        true
    }

    open spec fn add_req(self, other: Checked<isize>) -> bool {
        true
    }

    open spec fn add_spec(self, other: Checked<isize>) -> Checked<isize> {
        Checked(Some(*self)).sum(other)
    }
}

/// `raw + &checked`.
impl<'a> std::ops::Add<&'a Checked<isize>> for isize {
    type Output = Checked<isize>;

    fn add(self, other: &'a Checked<isize>) -> (r: Checked<isize>)
        ensures
            r == Checked(Some(self)).sum(*other),
    {
        self + *other
    }
}

impl<'a> vstd::std_specs::ops::AddSpecImpl<&'a Checked<isize>> for isize {
    open spec fn obeys_add_spec() -> bool {
        true
    }

    open spec fn add_req(self, other: &'a Checked<isize>) -> bool {
        true
    }

    open spec fn add_spec(self, other: &'a Checked<isize>) -> Checked<isize> {
        Checked(Some(self)).sum(*other)
    }
}

/// `&raw + &checked`.
impl<'a, 'b> std::ops::Add<&'a Checked<isize>> for &'b isize {
    type Output = Checked<isize>;

    fn add(self, other: &'a Checked<isize>) -> (r: Checked<isize>)
        ensures
            r == Checked(Some(*self)).sum(*other),
    {
        *self + *other
    }
}

impl<'a, 'b> vstd::std_specs::ops::AddSpecImpl<&'a Checked<isize>> for &'b isize {
    open spec fn obeys_add_spec() -> bool {
        true
    }

    open spec fn add_req(self, other: &'a Checked<isize>) -> bool {
        true
    }

    open spec fn add_spec(self, other: &'a Checked<isize>) -> Checked<isize> {
        Checked(Some(*self)).sum(*other)
    }
}

/// `raw - checked`: the subtraction of a raw and a checked `isize`.
impl std::ops::Sub<Checked<isize>> for isize {
    type Output = Checked<isize>;

    fn sub(self, other: Checked<isize>) -> (r: Checked<isize>)
        ensures
            r == Checked(Some(self)).difference(other),
    {
        Checked(Some(self)) - other
    }
}

impl vstd::std_specs::ops::SubSpecImpl<Checked<isize>> for isize {
    open spec fn obeys_sub_spec() -> bool {
        true
    }

    open spec fn sub_req(self, other: Checked<isize>) -> bool {
        true
    }

    open spec fn sub_spec(self, other: Checked<isize>) -> Checked<isize> {
        Checked(Some(self)).difference(other)
    }
}

/// `&raw - checked`.
impl<'a> std::ops::Sub<Checked<isize>> for &'a isize {
    type Output = Checked<isize>;

    fn sub(self, other: Checked<isize>) -> (r: Checked<isize>)
        ensures
            r == Checked(Some(*self)).difference(other),
    {
        *self - other
    }
}

impl<'a> vstd::std_specs::ops::SubSpecImpl<Checked<isize>> for &'a isize {
    open spec fn obeys_sub_spec() -> bool {
        true
    }

    open spec fn sub_req(self, other: Checked<isize>) -> bool {
        true
    }

    open spec fn sub_spec(self, other: Checked<isize>) -> Checked<isize> {
        Checked(Some(*self)).difference(other)
    }
}

/// `raw - &checked`.
impl<'a> std::ops::Sub<&'a Checked<isize>> for isize {
    type Output = Checked<isize>;

    fn sub(self, other: &'a Checked<isize>) -> (r: Checked<isize>)
        ensures
            r == Checked(Some(self)).difference(*other),
    {
        self - *other
    }
}

impl<'a> vstd::std_specs::ops::SubSpecImpl<&'a Checked<isize>> for isize {
    open spec fn obeys_sub_spec() -> bool {
        true
    }

    open spec fn sub_req(self, other: &'a Checked<isize>) -> bool {
        true
    }

    open spec fn sub_spec(self, other: &'a Checked<isize>) -> Checked<isize> {
        Checked(Some(self)).difference(*other)
    }
}

/// `&raw - &checked`.
impl<'a, 'b> std::ops::Sub<&'a Checked<isize>> for &'b isize {
    type Output = Checked<isize>;

    fn sub(self, other: &'a Checked<isize>) -> (r: Checked<isize>)
        ensures
            r == Checked(Some(*self)).difference(*other),
    {
        *self - *other
    }
}

impl<'a, 'b> vstd::std_specs::ops::SubSpecImpl<&'a Checked<isize>> for &'b isize {
    open spec fn obeys_sub_spec() -> bool {
        true
    }

    open spec fn sub_req(self, other: &'a Checked<isize>) -> bool {
        true
    }

    open spec fn sub_spec(self, other: &'a Checked<isize>) -> Checked<isize> {
        Checked(Some(*self)).difference(*other)
    }
}

/// `raw * checked`: the multiplication of a raw and a checked `isize`.
impl std::ops::Mul<Checked<isize>> for isize {
    type Output = Checked<isize>;

    fn mul(self, other: Checked<isize>) -> (r: Checked<isize>)
        ensures
            r == Checked(Some(self)).product(other),
    {
        Checked(Some(self)) * other
    }
}

impl vstd::std_specs::ops::MulSpecImpl<Checked<isize>> for isize {
    open spec fn obeys_mul_spec() -> bool {
        true
    }

    open spec fn mul_req(self, other: Checked<isize>) -> bool {
        true
    }

    open spec fn mul_spec(self, other: Checked<isize>) -> Checked<isize> {
        Checked(Some(self)).product(other)
    }
}

/// `&raw * checked`.
impl<'a> std::ops::Mul<Checked<isize>> for &'a isize {
    type Output = Checked<isize>;

    fn mul(self, other: Checked<isize>) -> (r: Checked<isize>)
        ensures
            r == Checked(Some(*self)).product(other),
    {
        *self * other
    }
}

impl<'a> vstd::std_specs::ops::MulSpecImpl<Checked<isize>> for &'a isize {
    open spec fn obeys_mul_spec() -> bool {
        true
    }

    open spec fn mul_req(self, other: Checked<isize>) -> bool {
        true
    }

    open spec fn mul_spec(self, other: Checked<isize>) -> Checked<isize> {
        Checked(Some(*self)).product(other)
    }
}

/// `raw * &checked`.
impl<'a> std::ops::Mul<&'a Checked<isize>> for isize {
    type Output = Checked<isize>;

    fn mul(self, other: &'a Checked<isize>) -> (r: Checked<isize>)
        ensures
            r == Checked(Some(self)).product(*other),
    {
        self * *other
    }
}

impl<'a> vstd::std_specs::ops::MulSpecImpl<&'a Checked<isize>> for isize {
    open spec fn obeys_mul_spec() -> bool {
        true
    }

    open spec fn mul_req(self, other: &'a Checked<isize>) -> bool {
        true
    }

    open spec fn mul_spec(self, other: &'a Checked<isize>) -> Checked<isize> {
        Checked(Some(self)).product(*other)
    }
}

/// `&raw * &checked`.
impl<'a, 'b> std::ops::Mul<&'a Checked<isize>> for &'b isize {
    type Output = Checked<isize>;

    fn mul(self, other: &'a Checked<isize>) -> (r: Checked<isize>)
        ensures
            r == Checked(Some(*self)).product(*other),
    {
        *self * *other
    }
}

impl<'a, 'b> vstd::std_specs::ops::MulSpecImpl<&'a Checked<isize>> for &'b isize {
    open spec fn obeys_mul_spec() -> bool {
        true
    }

    open spec fn mul_req(self, other: &'a Checked<isize>) -> bool {
        true
    }

    open spec fn mul_spec(self, other: &'a Checked<isize>) -> Checked<isize> {
        Checked(Some(*self)).product(*other)
    }
}

/// `raw / checked`: the division of a raw and a checked `isize`.
impl std::ops::Div<Checked<isize>> for isize {
    type Output = Checked<isize>;

    fn div(self, other: Checked<isize>) -> (r: Checked<isize>)
        ensures
            r == Checked(Some(self)).quotient(other),
    {
        Checked(Some(self)) / other
    }
}

impl vstd::std_specs::ops::DivSpecImpl<Checked<isize>> for isize {
    open spec fn obeys_div_spec() -> bool {
        true
    }

    open spec fn div_req(self, other: Checked<isize>) -> bool {
        true
    }

    open spec fn div_spec(self, other: Checked<isize>) -> Checked<isize> {
        Checked(Some(self)).quotient(other)
    }
}

/// `&raw / checked`.
impl<'a> std::ops::Div<Checked<isize>> for &'a isize {
    type Output = Checked<isize>;

    fn div(self, other: Checked<isize>) -> (r: Checked<isize>)
        ensures
            r == Checked(Some(*self)).quotient(other),
    {
        *self / other
    }
}

impl<'a> vstd::std_specs::ops::DivSpecImpl<Checked<isize>> for &'a isize {
    open spec fn obeys_div_spec() -> bool {
        true
    }

    open spec fn div_req(self, other: Checked<isize>) -> bool {
        true
    }

    open spec fn div_spec(self, other: Checked<isize>) -> Checked<isize> {
        Checked(Some(*self)).quotient(other)
    }
}

/// `raw / &checked`.
impl<'a> std::ops::Div<&'a Checked<isize>> for isize {
    type Output = Checked<isize>;

    fn div(self, other: &'a Checked<isize>) -> (r: Checked<isize>)
        ensures
            r == Checked(Some(self)).quotient(*other),
    {
        self / *other
    }
}

impl<'a> vstd::std_specs::ops::DivSpecImpl<&'a Checked<isize>> for isize {
    open spec fn obeys_div_spec() -> bool {
        true
    }

    open spec fn div_req(self, other: &'a Checked<isize>) -> bool {
        true
    }

    open spec fn div_spec(self, other: &'a Checked<isize>) -> Checked<isize> {
        Checked(Some(self)).quotient(*other)
    }
}

/// `&raw / &checked`.
impl<'a, 'b> std::ops::Div<&'a Checked<isize>> for &'b isize {
    type Output = Checked<isize>;

    fn div(self, other: &'a Checked<isize>) -> (r: Checked<isize>)
        ensures
            r == Checked(Some(*self)).quotient(*other),
    {
        *self / *other
    }
}

impl<'a, 'b> vstd::std_specs::ops::DivSpecImpl<&'a Checked<isize>> for &'b isize {
    open spec fn obeys_div_spec() -> bool {
        true
    }

    open spec fn div_req(self, other: &'a Checked<isize>) -> bool {
        true
    }

    open spec fn div_spec(self, other: &'a Checked<isize>) -> Checked<isize> {
        Checked(Some(*self)).quotient(*other)
    }
}

/// `raw % checked`: the remainder of a raw and a checked `isize`.
impl std::ops::Rem<Checked<isize>> for isize {
    type Output = Checked<isize>;

    fn rem(self, other: Checked<isize>) -> (r: Checked<isize>)
        ensures
            r == Checked(Some(self)).remainder(other),
    {
        Checked(Some(self)) % other
    }
}

impl vstd::std_specs::ops::RemSpecImpl<Checked<isize>> for isize {
    open spec fn obeys_rem_spec() -> bool {
        true
    }

    open spec fn rem_req(self, other: Checked<isize>) -> bool {
        true
    }

    open spec fn rem_spec(self, other: Checked<isize>) -> Checked<isize> {
        Checked(Some(self)).remainder(other)
    }
}

/// `&raw % checked`.
impl<'a> std::ops::Rem<Checked<isize>> for &'a isize {
    type Output = Checked<isize>;

    fn rem(self, other: Checked<isize>) -> (r: Checked<isize>)
        ensures
            r == Checked(Some(*self)).remainder(other),
    {
        *self % other
    }
}

impl<'a> vstd::std_specs::ops::RemSpecImpl<Checked<isize>> for &'a isize {
    open spec fn obeys_rem_spec() -> bool {
        true
    }

    open spec fn rem_req(self, other: Checked<isize>) -> bool {
        true
    }

    open spec fn rem_spec(self, other: Checked<isize>) -> Checked<isize> {
        Checked(Some(*self)).remainder(other)
    }
}

/// `raw % &checked`.
impl<'a> std::ops::Rem<&'a Checked<isize>> for isize {
    type Output = Checked<isize>;

    fn rem(self, other: &'a Checked<isize>) -> (r: Checked<isize>)
        ensures
            r == Checked(Some(self)).remainder(*other),
    {
        self % *other
    }
}

impl<'a> vstd::std_specs::ops::RemSpecImpl<&'a Checked<isize>> for isize {
    open spec fn obeys_rem_spec() -> bool {
        true
    }

    open spec fn rem_req(self, other: &'a Checked<isize>) -> bool {
        true
    }

    open spec fn rem_spec(self, other: &'a Checked<isize>) -> Checked<isize> {
        Checked(Some(self)).remainder(*other)
    }
}

/// `&raw % &checked`.
impl<'a, 'b> std::ops::Rem<&'a Checked<isize>> for &'b isize {
    type Output = Checked<isize>;

    fn rem(self, other: &'a Checked<isize>) -> (r: Checked<isize>)
        ensures
            r == Checked(Some(*self)).remainder(*other),
    {
        *self % *other
    }
}

impl<'a, 'b> vstd::std_specs::ops::RemSpecImpl<&'a Checked<isize>> for &'b isize {
    open spec fn obeys_rem_spec() -> bool {
        true
    }

    open spec fn rem_req(self, other: &'a Checked<isize>) -> bool {
        true
    }

    open spec fn rem_spec(self, other: &'a Checked<isize>) -> Checked<isize> {
        Checked(Some(*self)).remainder(*other)
    }
}

/// `raw & checked`: the bitwise and of a raw and a checked `isize`.
impl std::ops::BitAnd<Checked<isize>> for isize {
    type Output = Checked<isize>;

    fn bitand(self, other: Checked<isize>) -> (r: Checked<isize>)
        ensures
            r == Checked(Some(self)).conjunction(other),
    {
        Checked(Some(self)) & other
    }
}

impl vstd::std_specs::ops::BitAndSpecImpl<Checked<isize>> for isize {
    open spec fn obeys_bitand_spec() -> bool {
        true
    }

    open spec fn bitand_req(self, other: Checked<isize>) -> bool {
        true
    }

    open spec fn bitand_spec(self, other: Checked<isize>) -> Checked<isize> {
        Checked(Some(self)).conjunction(other)
    }
}

/// `&raw & checked`.
impl<'a> std::ops::BitAnd<Checked<isize>> for &'a isize {
    type Output = Checked<isize>;

    fn bitand(self, other: Checked<isize>) -> (r: Checked<isize>)
        ensures
            r == Checked(Some(*self)).conjunction(other),
    {
        *self & other
    }
}

impl<'a> vstd::std_specs::ops::BitAndSpecImpl<Checked<isize>> for &'a isize {
    open spec fn obeys_bitand_spec() -> bool {
        true
    }

    open spec fn bitand_req(self, other: Checked<isize>) -> bool {
        true
    }

    open spec fn bitand_spec(self, other: Checked<isize>) -> Checked<isize> {
        Checked(Some(*self)).conjunction(other)
    }
}

/// `raw & &checked`.
impl<'a> std::ops::BitAnd<&'a Checked<isize>> for isize {
    type Output = Checked<isize>;

    fn bitand(self, other: &'a Checked<isize>) -> (r: Checked<isize>)
        ensures
            r == Checked(Some(self)).conjunction(*other),
    {
        self & *other
    }
}

impl<'a> vstd::std_specs::ops::BitAndSpecImpl<&'a Checked<isize>> for isize {
    open spec fn obeys_bitand_spec() -> bool {
        true
    }

    open spec fn bitand_req(self, other: &'a Checked<isize>) -> bool {
        true
    }

    open spec fn bitand_spec(self, other: &'a Checked<isize>) -> Checked<isize> {
        Checked(Some(self)).conjunction(*other)
    }
}

/// `&raw & &checked`.
impl<'a, 'b> std::ops::BitAnd<&'a Checked<isize>> for &'b isize {
    type Output = Checked<isize>;

    fn bitand(self, other: &'a Checked<isize>) -> (r: Checked<isize>)
        ensures
            r == Checked(Some(*self)).conjunction(*other),
    {
        *self & *other
    }
}

impl<'a, 'b> vstd::std_specs::ops::BitAndSpecImpl<&'a Checked<isize>> for &'b isize {
    open spec fn obeys_bitand_spec() -> bool {
        true
    }

    open spec fn bitand_req(self, other: &'a Checked<isize>) -> bool {
        true
    }

    open spec fn bitand_spec(self, other: &'a Checked<isize>) -> Checked<isize> {
        Checked(Some(*self)).conjunction(*other)
    }
}

/// `raw | checked`: the bitwise or of a raw and a checked `isize`.
impl std::ops::BitOr<Checked<isize>> for isize {
    type Output = Checked<isize>;

    fn bitor(self, other: Checked<isize>) -> (r: Checked<isize>)
        ensures
            r == Checked(Some(self)).disjunction(other),
    {
        Checked(Some(self)) | other
    }
}

impl vstd::std_specs::ops::BitOrSpecImpl<Checked<isize>> for isize {
    open spec fn obeys_bitor_spec() -> bool {
        true
    }

    open spec fn bitor_req(self, other: Checked<isize>) -> bool {
        true
    }

    open spec fn bitor_spec(self, other: Checked<isize>) -> Checked<isize> {
        Checked(Some(self)).disjunction(other)
    }
}

/// `&raw | checked`.
impl<'a> std::ops::BitOr<Checked<isize>> for &'a isize {
    type Output = Checked<isize>;

    fn bitor(self, other: Checked<isize>) -> (r: Checked<isize>)
        ensures
            r == Checked(Some(*self)).disjunction(other),
    {
        *self | other
    }
}

impl<'a> vstd::std_specs::ops::BitOrSpecImpl<Checked<isize>> for &'a isize {
    open spec fn obeys_bitor_spec() -> bool {
        true
    }

    open spec fn bitor_req(self, other: Checked<isize>) -> bool {
        true
    }

    open spec fn bitor_spec(self, other: Checked<isize>) -> Checked<isize> {
        Checked(Some(*self)).disjunction(other)
    }
}

/// `raw | &checked`.
impl<'a> std::ops::BitOr<&'a Checked<isize>> for isize {
    type Output = Checked<isize>;

    fn bitor(self, other: &'a Checked<isize>) -> (r: Checked<isize>)
        ensures
            r == Checked(Some(self)).disjunction(*other),
    {
        self | *other
    }
}

impl<'a> vstd::std_specs::ops::BitOrSpecImpl<&'a Checked<isize>> for isize {
    open spec fn obeys_bitor_spec() -> bool {
        true
    }

    open spec fn bitor_req(self, other: &'a Checked<isize>) -> bool {
        true
    }

    open spec fn bitor_spec(self, other: &'a Checked<isize>) -> Checked<isize> {
        Checked(Some(self)).disjunction(*other)
    }
}

/// `&raw | &checked`.
impl<'a, 'b> std::ops::BitOr<&'a Checked<isize>> for &'b isize {
    type Output = Checked<isize>;

    fn bitor(self, other: &'a Checked<isize>) -> (r: Checked<isize>)
        ensures
            r == Checked(Some(*self)).disjunction(*other),
    {
        *self | *other
    }
}

impl<'a, 'b> vstd::std_specs::ops::BitOrSpecImpl<&'a Checked<isize>> for &'b isize {
    open spec fn obeys_bitor_spec() -> bool {
        true
    }

    open spec fn bitor_req(self, other: &'a Checked<isize>) -> bool {
        true
    }

    open spec fn bitor_spec(self, other: &'a Checked<isize>) -> Checked<isize> {
        Checked(Some(*self)).disjunction(*other)
    }
}

/// `raw ^ checked`: the bitwise exclusive or of a raw and a checked `isize`.
impl std::ops::BitXor<Checked<isize>> for isize {
    type Output = Checked<isize>;

    fn bitxor(self, other: Checked<isize>) -> (r: Checked<isize>)
        ensures
            r == Checked(Some(self)).exclusion(other),
    {
        Checked(Some(self)) ^ other
    }
}

impl vstd::std_specs::ops::BitXorSpecImpl<Checked<isize>> for isize {
    open spec fn obeys_bitxor_spec() -> bool {
        true
    }

    open spec fn bitxor_req(self, other: Checked<isize>) -> bool {
        true
    }

    open spec fn bitxor_spec(self, other: Checked<isize>) -> Checked<isize> {
        Checked(Some(self)).exclusion(other)
    }
}

/// `&raw ^ checked`.
impl<'a> std::ops::BitXor<Checked<isize>> for &'a isize {
    type Output = Checked<isize>;

    fn bitxor(self, other: Checked<isize>) -> (r: Checked<isize>)
        ensures
            r == Checked(Some(*self)).exclusion(other),
    {
        *self ^ other
    }
}

impl<'a> vstd::std_specs::ops::BitXorSpecImpl<Checked<isize>> for &'a isize {
    open spec fn obeys_bitxor_spec() -> bool {
        true
    }

    open spec fn bitxor_req(self, other: Checked<isize>) -> bool {
        true
    }

    open spec fn bitxor_spec(self, other: Checked<isize>) -> Checked<isize> {
        Checked(Some(*self)).exclusion(other)
    }
}

/// `raw ^ &checked`.
impl<'a> std::ops::BitXor<&'a Checked<isize>> for isize {
    type Output = Checked<isize>;

    fn bitxor(self, other: &'a Checked<isize>) -> (r: Checked<isize>)
        ensures
            r == Checked(Some(self)).exclusion(*other),
    {
        self ^ *other
    }
}

impl<'a> vstd::std_specs::ops::BitXorSpecImpl<&'a Checked<isize>> for isize {
    open spec fn obeys_bitxor_spec() -> bool {
        true
    }

    open spec fn bitxor_req(self, other: &'a Checked<isize>) -> bool {
        true
    }

    open spec fn bitxor_spec(self, other: &'a Checked<isize>) -> Checked<isize> {
        Checked(Some(self)).exclusion(*other)
    }
}

/// `&raw ^ &checked`.
impl<'a, 'b> std::ops::BitXor<&'a Checked<isize>> for &'b isize {
    type Output = Checked<isize>;

    fn bitxor(self, other: &'a Checked<isize>) -> (r: Checked<isize>)
        ensures
            r == Checked(Some(*self)).exclusion(*other),
    {
        *self ^ *other
    }
}

impl<'a, 'b> vstd::std_specs::ops::BitXorSpecImpl<&'a Checked<isize>> for &'b isize {
    open spec fn obeys_bitxor_spec() -> bool {
        true
    }

    open spec fn bitxor_req(self, other: &'a Checked<isize>) -> bool {
        true
    }

    open spec fn bitxor_spec(self, other: &'a Checked<isize>) -> Checked<isize> {
        Checked(Some(*self)).exclusion(*other)
    }
}

/// `raw << checked`: the left shift of a raw `isize` by a checked amount.
impl std::ops::Shl<Checked<u32>> for isize {
    type Output = Checked<isize>;

    fn shl(self, amount: Checked<u32>) -> (r: Checked<isize>)
        ensures
            r == Checked(Some(self)).shifted_left(amount),
    {
        Checked(Some(self)) << amount
    }
}

impl vstd::std_specs::ops::ShlSpecImpl<Checked<u32>> for isize {
    open spec fn obeys_shl_spec() -> bool {
        true
    }

    open spec fn shl_req(self, amount: Checked<u32>) -> bool {
        true
    }

    open spec fn shl_spec(self, amount: Checked<u32>) -> Checked<isize> {
        Checked(Some(self)).shifted_left(amount)
    }
}

/// `&raw << checked`.
impl<'a> std::ops::Shl<Checked<u32>> for &'a isize {
    type Output = Checked<isize>;

    fn shl(self, amount: Checked<u32>) -> (r: Checked<isize>)
        ensures
            r == Checked(Some(*self)).shifted_left(amount),
    {
        *self << amount
    }
}

impl<'a> vstd::std_specs::ops::ShlSpecImpl<Checked<u32>> for &'a isize {
    open spec fn obeys_shl_spec() -> bool {
        true
    }

    open spec fn shl_req(self, amount: Checked<u32>) -> bool {
        true
    }

    open spec fn shl_spec(self, amount: Checked<u32>) -> Checked<isize> {
        Checked(Some(*self)).shifted_left(amount)
    }
}

/// `raw << &checked`.
impl<'a> std::ops::Shl<&'a Checked<u32>> for isize {
    type Output = Checked<isize>;

    fn shl(self, amount: &'a Checked<u32>) -> (r: Checked<isize>)
        ensures
            r == Checked(Some(self)).shifted_left(*amount),
    {
        self << *amount
    }
}

impl<'a> vstd::std_specs::ops::ShlSpecImpl<&'a Checked<u32>> for isize {
    open spec fn obeys_shl_spec() -> bool {
        true
    }

    open spec fn shl_req(self, amount: &'a Checked<u32>) -> bool {
        true
    }

    open spec fn shl_spec(self, amount: &'a Checked<u32>) -> Checked<isize> {
        Checked(Some(self)).shifted_left(*amount)
    }
}

/// `&raw << &checked`.
impl<'a, 'b> std::ops::Shl<&'a Checked<u32>> for &'b isize {
    type Output = Checked<isize>;

    fn shl(self, amount: &'a Checked<u32>) -> (r: Checked<isize>)
        ensures
            r == Checked(Some(*self)).shifted_left(*amount),
    {
        *self << *amount
    }
}

impl<'a, 'b> vstd::std_specs::ops::ShlSpecImpl<&'a Checked<u32>> for &'b isize {
    open spec fn obeys_shl_spec() -> bool {
        true
    }

    open spec fn shl_req(self, amount: &'a Checked<u32>) -> bool {
        true
    }

    open spec fn shl_spec(self, amount: &'a Checked<u32>) -> Checked<isize> {
        Checked(Some(*self)).shifted_left(*amount)
    }
}

/// `raw >> checked`: the right shift of a raw `isize` by a checked amount.
impl std::ops::Shr<Checked<u32>> for isize {
    type Output = Checked<isize>;

    fn shr(self, amount: Checked<u32>) -> (r: Checked<isize>)
        ensures
            r == Checked(Some(self)).shifted_right(amount),
    {
        Checked(Some(self)) >> amount
    }
}

impl vstd::std_specs::ops::ShrSpecImpl<Checked<u32>> for isize {
    open spec fn obeys_shr_spec() -> bool {
        true
    }

    open spec fn shr_req(self, amount: Checked<u32>) -> bool {
        true
    }

    open spec fn shr_spec(self, amount: Checked<u32>) -> Checked<isize> {
        Checked(Some(self)).shifted_right(amount)
    }
}

/// `&raw >> checked`.
impl<'a> std::ops::Shr<Checked<u32>> for &'a isize {
    type Output = Checked<isize>;

    fn shr(self, amount: Checked<u32>) -> (r: Checked<isize>)
        ensures
            r == Checked(Some(*self)).shifted_right(amount),
    {
        *self >> amount
    }
}

impl<'a> vstd::std_specs::ops::ShrSpecImpl<Checked<u32>> for &'a isize {
    open spec fn obeys_shr_spec() -> bool {
        true
    }

    open spec fn shr_req(self, amount: Checked<u32>) -> bool {
        true
    }

    open spec fn shr_spec(self, amount: Checked<u32>) -> Checked<isize> {
        Checked(Some(*self)).shifted_right(amount)
    }
}

/// `raw >> &checked`.
impl<'a> std::ops::Shr<&'a Checked<u32>> for isize {
    type Output = Checked<isize>;

    fn shr(self, amount: &'a Checked<u32>) -> (r: Checked<isize>)
        ensures
            r == Checked(Some(self)).shifted_right(*amount),
    {
        self >> *amount
    }
}

impl<'a> vstd::std_specs::ops::ShrSpecImpl<&'a Checked<u32>> for isize {
    open spec fn obeys_shr_spec() -> bool {
        true
    }

    open spec fn shr_req(self, amount: &'a Checked<u32>) -> bool {
        true
    }

    open spec fn shr_spec(self, amount: &'a Checked<u32>) -> Checked<isize> {
        Checked(Some(self)).shifted_right(*amount)
    }
}

/// `&raw >> &checked`.
impl<'a, 'b> std::ops::Shr<&'a Checked<u32>> for &'b isize {
    type Output = Checked<isize>;

    fn shr(self, amount: &'a Checked<u32>) -> (r: Checked<isize>)
        ensures
            r == Checked(Some(*self)).shifted_right(*amount),
    {
        *self >> *amount
    }
}

impl<'a, 'b> vstd::std_specs::ops::ShrSpecImpl<&'a Checked<u32>> for &'b isize {
    open spec fn obeys_shr_spec() -> bool {
        true
    }

    open spec fn shr_req(self, amount: &'a Checked<u32>) -> bool {
        true
    }

    open spec fn shr_spec(self, amount: &'a Checked<u32>) -> Checked<isize> {
        Checked(Some(*self)).shifted_right(*amount)
    }
}

/// A raw `isize` on the left counts as the valid integer it is: every operator yields between
/// a raw and a checked integer what it yields between the two as checked integers.
pub proof fn law_raw_left_operand_isize(a: isize, y: Checked<isize>, amount: Checked<u32>)
    ensures
        a.add_spec(y) == Checked(Some(a)).add_spec(y),
        a.sub_spec(y) == Checked(Some(a)).sub_spec(y),
        a.mul_spec(y) == Checked(Some(a)).mul_spec(y),
        a.div_spec(y) == Checked(Some(a)).div_spec(y),
        a.rem_spec(y) == Checked(Some(a)).rem_spec(y),
        a.bitand_spec(y) == Checked(Some(a)).bitand_spec(y),
        a.bitor_spec(y) == Checked(Some(a)).bitor_spec(y),
        a.bitxor_spec(y) == Checked(Some(a)).bitxor_spec(y),
        a.shl_spec(amount) == Checked(Some(a)).shl_spec(amount),
        a.shr_spec(amount) == Checked(Some(a)).shr_spec(amount),
{
}

} // verus!
