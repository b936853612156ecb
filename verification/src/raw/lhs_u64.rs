//! The operators with a raw `u64` on the left and a checked integer on the right.
//!
//! The raw integer counts as valid: each operator yields what it yields between two
//! checked integers.

use crate::num::Checked;
use vstd::prelude::*;
use vstd::std_specs::ops::{
    AddSpec, BitAndSpec, BitOrSpec, BitXorSpec, DivSpec, MulSpec, RemSpec, ShlSpec, ShrSpec,
    SubSpec,
};

verus! {

/// `raw + checked`: the addition of a raw and a checked `u64`.
impl std::ops::Add<Checked<u64>> for u64 {
    type Output = Checked<u64>;

    fn add(self, other: Checked<u64>) -> (r: Checked<u64>)
        ensures
            r == Checked(Some(self)).sum(other),
    {
        Checked(Some(self)) + other
    }
}

impl vstd::std_specs::ops::AddSpecImpl<Checked<u64>> for u64 {
    open spec fn obeys_add_spec() -> bool {
        true
    }

    open spec fn add_req(self, other: Checked<u64>) -> bool {
        true
    }

    open spec fn add_spec(self, other: Checked<u64>) -> Checked<u64> {
        Checked(Some(self)).sum(other)
    }
}

/// `&raw + checked`.
impl<'a> std::ops::Add<Checked<u64>> for &'a u64 {
    type Output = Checked<u64>;

    fn add(self, other: Checked<u64>) -> (r: Checked<u64>)
        ensures
            r == Checked(Some(*self)).sum(other),
    {
        *self + other
    }
}

impl<'a> vstd::std_specs::ops::AddSpecImpl<Checked<u64>> for &'a u64 {
    open spec fn obeys_add_spec() -> bool {
        true
    }

    open spec fn add_req(self, other: Checked<u64>) -> bool {
        true
    }

    open spec fn add_spec(self, other: Checked<u64>) -> Checked<u64> {
        Checked(Some(*self)).sum(other)
    }
}

/// `raw + &checked`.
impl<'a> std::ops::Add<&'a Checked<u64>> for u64 {
    type Output = Checked<u64>;

    fn add(self, other: &'a Checked<u64>) -> (r: Checked<u64>)
        ensures
            r == Checked(Some(self)).sum(*other),
    {
        self + *other
    }
}

impl<'a> vstd::std_specs::ops::AddSpecImpl<&'a Checked<u64>> for u64 {
    open spec fn obeys_add_spec() -> bool {
        true
    }

    open spec fn add_req(self, other: &'a Checked<u64>) -> bool {
        true
    }

    open spec fn add_spec(self, other: &'a Checked<u64>) -> Checked<u64> {
        Checked(Some(self)).sum(*other)
    }
}

/// `&raw + &checked`.
impl<'a, 'b> std::ops::Add<&'a Checked<u64>> for &'b u64 {
    type Output = Checked<u64>;

    fn add(self, other: &'a Checked<u64>) -> (r: Checked<u64>)
        ensures
            r == Checked(Some(*self)).sum(*other),
    {
        *self + *other
    }
}

impl<'a, 'b> vstd::std_specs::ops::AddSpecImpl<&'a Checked<u64>> for &'b u64 {
    open spec fn obeys_add_spec() -> bool {
        true
    }

    open spec fn add_req(self, other: &'a Checked<u64>) -> bool {
        true
    }

    open spec fn add_spec(self, other: &'a Checked<u64>) -> Checked<u64> {
        Checked(Some(*self)).sum(*other)
    }
}

/// `raw - checked`: the subtraction of a raw and a checked `u64`.
impl std::ops::Sub<Checked<u64>> for u64 {
    type Output = Checked<u64>;

    fn sub(self, other: Checked<u64>) -> (r: Checked<u64>)
        ensures
            r == Checked(Some(self)).difference(other),
    {
        Checked(Some(self)) - other
    }
}

impl vstd::std_specs::ops::SubSpecImpl<Checked<u64>> for u64 {
    open spec fn obeys_sub_spec() -> bool {
        true
    }

    open spec fn sub_req(self, other: Checked<u64>) -> bool {
        true
    }

    open spec fn sub_spec(self, other: Checked<u64>) -> Checked<u64> {
        Checked(Some(self)).difference(other)
    }
}

/// `&raw - checked`.
impl<'a> std::ops::Sub<Checked<u64>> for &'a u64 {
    type Output = Checked<u64>;

    fn sub(self, other: Checked<u64>) -> (r: Checked<u64>)
        ensures
            r == Checked(Some(*self)).difference(other),
    {
        *self - other
    }
}

impl<'a> vstd::std_specs::ops::SubSpecImpl<Checked<u64>> for &'a u64 {
    open spec fn obeys_sub_spec() -> bool {
        true
    }

    open spec fn sub_req(self, other: Checked<u64>) -> bool {
        true
    }

    open spec fn sub_spec(self, other: Checked<u64>) -> Checked<u64> {
        Checked(Some(*self)).difference(other)
    }
}

/// `raw - &checked`.
impl<'a> std::ops::Sub<&'a Checked<u64>> for u64 {
    type Output = Checked<u64>;

    fn sub(self, other: &'a Checked<u64>) -> (r: Checked<u64>)
        ensures
            r == Checked(Some(self)).difference(*other),
    {
        self - *other
    }
}

impl<'a> vstd::std_specs::ops::SubSpecImpl<&'a Checked<u64>> for u64 {
    open spec fn obeys_sub_spec() -> bool {
        true
    }

    open spec fn sub_req(self, other: &'a Checked<u64>) -> bool {
        true
    }

    open spec fn sub_spec(self, other: &'a Checked<u64>) -> Checked<u64> {
        Checked(Some(self)).difference(*other)
    }
}

/// `&raw - &checked`.
impl<'a, 'b> std::ops::Sub<&'a Checked<u64>> for &'b u64 {
    type Output = Checked<u64>;

    fn sub(self, other: &'a Checked<u64>) -> (r: Checked<u64>)
        ensures
            r == Checked(Some(*self)).difference(*other),
    {
        *self - *other
    }
}

impl<'a, 'b> vstd::std_specs::ops::SubSpecImpl<&'a Checked<u64>> for &'b u64 {
    open spec fn obeys_sub_spec() -> bool {
        true
    }

    open spec fn sub_req(self, other: &'a Checked<u64>) -> bool {
        true
    }

    open spec fn sub_spec(self, other: &'a Checked<u64>) -> Checked<u64> {
        Checked(Some(*self)).difference(*other)
    }
}

/// `raw * checked`: the multiplication of a raw and a checked `u64`.
impl std::ops::Mul<Checked<u64>> for u64 {
    type Output = Checked<u64>;

    fn mul(self, other: Checked<u64>) -> (r: Checked<u64>)
        ensures
            r == Checked(Some(self)).product(other),
    {
        Checked(Some(self)) * other
    }
}

impl vstd::std_specs::ops::MulSpecImpl<Checked<u64>> for u64 {
    open spec fn obeys_mul_spec() -> bool {
        true
    }

    open spec fn mul_req(self, other: Checked<u64>) -> bool {
        true
    }

    open spec fn mul_spec(self, other: Checked<u64>) -> Checked<u64> {
        Checked(Some(self)).product(other)
    }
}

/// `&raw * checked`.
impl<'a> std::ops::Mul<Checked<u64>> for &'a u64 {
    type Output = Checked<u64>;

    fn mul(self, other: Checked<u64>) -> (r: Checked<u64>)
        ensures
            r == Checked(Some(*self)).product(other),
    {
        *self * other
    }
}

impl<'a> vstd::std_specs::ops::MulSpecImpl<Checked<u64>> for &'a u64 {
    open spec fn obeys_mul_spec() -> bool {
        true
    }

    open spec fn mul_req(self, other: Checked<u64>) -> bool {
        true
    }

    open spec fn mul_spec(self, other: Checked<u64>) -> Checked<u64> {
        Checked(Some(*self)).product(other)
    }
}

/// `raw * &checked`.
impl<'a> std::ops::Mul<&'a Checked<u64>> for u64 {
    type Output = Checked<u64>;

    fn mul(self, other: &'a Checked<u64>) -> (r: Checked<u64>)
        ensures
            r == Checked(Some(self)).product(*other),
    {
        self * *other
    }
}

impl<'a> vstd::std_specs::ops::MulSpecImpl<&'a Checked<u64>> for u64 {
    open spec fn obeys_mul_spec() -> bool {
        true
    }

    open spec fn mul_req(self, other: &'a Checked<u64>) -> bool {
        true
    }

    open spec fn mul_spec(self, other: &'a Checked<u64>) -> Checked<u64> {
        Checked(Some(self)).product(*other)
    }
}

/// `&raw * &checked`.
impl<'a, 'b> std::ops::Mul<&'a Checked<u64>> for &'b u64 {
    type Output = Checked<u64>;

    fn mul(self, other: &'a Checked<u64>) -> (r: Checked<u64>)
        ensures
            r == Checked(Some(*self)).product(*other),
    {
        *self * *other
    }
}

impl<'a, 'b> vstd::std_specs::ops::MulSpecImpl<&'a Checked<u64>> for &'b u64 {
    open spec fn obeys_mul_spec() -> bool {
        true
    }

    open spec fn mul_req(self, other: &'a Checked<u64>) -> bool {
        true
    }

    open spec fn mul_spec(self, other: &'a Checked<u64>) -> Checked<u64> {
        Checked(Some(*self)).product(*other)
    }
}

/// `raw / checked`: the division of a raw and a checked `u64`.
impl std::ops::Div<Checked<u64>> for u64 {
    type Output = Checked<u64>;

    fn div(self, other: Checked<u64>) -> (r: Checked<u64>)
        ensures
            r == Checked(Some(self)).quotient(other),
    {
        Checked(Some(self)) / other
    }
}

impl vstd::std_specs::ops::DivSpecImpl<Checked<u64>> for u64 {
    open spec fn obeys_div_spec() -> bool {
        true
    }

    open spec fn div_req(self, other: Checked<u64>) -> bool {
        true
    }

    open spec fn div_spec(self, other: Checked<u64>) -> Checked<u64> {
        Checked(Some(self)).quotient(other)
    }
}

/// `&raw / checked`.
impl<'a> std::ops::Div<Checked<u64>> for &'a u64 {
    type Output = Checked<u64>;

    fn div(self, other: Checked<u64>) -> (r: Checked<u64>)
        ensures
            r == Checked(Some(*self)).quotient(other),
    {
        *self / other
    }
}

impl<'a> vstd::std_specs::ops::DivSpecImpl<Checked<u64>> for &'a u64 {
    open spec fn obeys_div_spec() -> bool {
        true
    }

    open spec fn div_req(self, other: Checked<u64>) -> bool {
        true
    }

    open spec fn div_spec(self, other: Checked<u64>) -> Checked<u64> {
        Checked(Some(*self)).quotient(other)
    }
}

/// `raw / &checked`.
impl<'a> std::ops::Div<&'a Checked<u64>> for u64 {
    type Output = Checked<u64>;

    fn div(self, other: &'a Checked<u64>) -> (r: Checked<u64>)
        ensures
            r == Checked(Some(self)).quotient(*other),
    {
        self / *other
    }
}

impl<'a> vstd::std_specs::ops::DivSpecImpl<&'a Checked<u64>> for u64 {
    open spec fn obeys_div_spec() -> bool {
        true
    }

    open spec fn div_req(self, other: &'a Checked<u64>) -> bool {
        true
    }

    open spec fn div_spec(self, other: &'a Checked<u64>) -> Checked<u64> {
        Checked(Some(self)).quotient(*other)
    }
}

/// `&raw / &checked`.
impl<'a, 'b> std::ops::Div<&'a Checked<u64>> for &'b u64 {
    type Output = Checked<u64>;

    fn div(self, other: &'a Checked<u64>) -> (r: Checked<u64>)
        ensures
            r == Checked(Some(*self)).quotient(*other),
    {
        *self / *other
    }
}

impl<'a, 'b> vstd::std_specs::ops::DivSpecImpl<&'a Checked<u64>> for &'b u64 {
    open spec fn obeys_div_spec() -> bool {
        true
    }

    open spec fn div_req(self, other: &'a Checked<u64>) -> bool {
        true
    }

    open spec fn div_spec(self, other: &'a Checked<u64>) -> Checked<u64> {
        Checked(Some(*self)).quotient(*other)
    }
}

/// `raw % checked`: the remainder of a raw and a checked `u64`.
impl std::ops::Rem<Checked<u64>> for u64 {
    type Output = Checked<u64>;

    fn rem(self, other: Checked<u64>) -> (r: Checked<u64>)
        ensures
            r == Checked(Some(self)).remainder(other),
    {
        Checked(Some(self)) % other
    }
}

impl vstd::std_specs::ops::RemSpecImpl<Checked<u64>> for u64 {
    open spec fn obeys_rem_spec() -> bool {
        true
    }

    open spec fn rem_req(self, other: Checked<u64>) -> bool {
        true
    }

    open spec fn rem_spec(self, other: Checked<u64>) -> Checked<u64> {
        Checked(Some(self)).remainder(other)
    }
}

/// `&raw % checked`.
impl<'a> std::ops::Rem<Checked<u64>> for &'a u64 {
    type Output = Checked<u64>;

    fn rem(self, other: Checked<u64>) -> (r: Checked<u64>)
        ensures
            r == Checked(Some(*self)).remainder(other),
    {
        *self % other
    }
}

impl<'a> vstd::std_specs::ops::RemSpecImpl<Checked<u64>> for &'a u64 {
    open spec fn obeys_rem_spec() -> bool {
        true
    }

    open spec fn rem_req(self, other: Checked<u64>) -> bool {
        true
    }

    open spec fn rem_spec(self, other: Checked<u64>) -> Checked<u64> {
        Checked(Some(*self)).remainder(other)
    }
}

/// `raw % &checked`.
impl<'a> std::ops::Rem<&'a Checked<u64>> for u64 {
    type Output = Checked<u64>;

    fn rem(self, other: &'a Checked<u64>) -> (r: Checked<u64>)
        ensures
            r == Checked(Some(self)).remainder(*other),
    {
        self % *other
    }
}

impl<'a> vstd::std_specs::ops::RemSpecImpl<&'a Checked<u64>> for u64 {
    open spec fn obeys_rem_spec() -> bool {
        true
    }

    open spec fn rem_req(self, other: &'a Checked<u64>) -> bool {
        true
    }

    open spec fn rem_spec(self, other: &'a Checked<u64>) -> Checked<u64> {
        Checked(Some(self)).remainder(*other)
    }
}

/// `&raw % &checked`.
impl<'a, 'b> std::ops::Rem<&'a Checked<u64>> for &'b u64 {
    type Output = Checked<u64>;

    fn rem(self, other: &'a Checked<u64>) -> (r: Checked<u64>)
        ensures
            r == Checked(Some(*self)).remainder(*other),
    {
        *self % *other
    }
}

impl<'a, 'b> vstd::std_specs::ops::RemSpecImpl<&'a Checked<u64>> for &'b u64 {
    open spec fn obeys_rem_spec() -> bool {
        true
    }

    open spec fn rem_req(self, other: &'a Checked<u64>) -> bool {
        true
    }

    open spec fn rem_spec(self, other: &'a Checked<u64>) -> Checked<u64> {
        Checked(Some(*self)).remainder(*other)
    }
}

/// `raw & checked`: the bitwise and of a raw and a checked `u64`.
impl std::ops::BitAnd<Checked<u64>> for u64 {
    type Output = Checked<u64>;

    fn bitand(self, other: Checked<u64>) -> (r: Checked<u64>)
        ensures
            r == Checked(Some(self)).conjunction(other),
    {
        Checked(Some(self)) & other
    }
}

impl vstd::std_specs::ops::BitAndSpecImpl<Checked<u64>> for u64 {
    open spec fn obeys_bitand_spec() -> bool {
        true
    }

    open spec fn bitand_req(self, other: Checked<u64>) -> bool {
        true
    }

    open spec fn bitand_spec(self, other: Checked<u64>) -> Checked<u64> {
        Checked(Some(self)).conjunction(other)
    }
}

/// `&raw & checked`.
impl<'a> std::ops::BitAnd<Checked<u64>> for &'a u64 {
    type Output = Checked<u64>;

    fn bitand(self, other: Checked<u64>) -> (r: Checked<u64>)
        ensures
            r == Checked(Some(*self)).conjunction(other),
    {
        *self & other
    }
}

impl<'a> vstd::std_specs::ops::BitAndSpecImpl<Checked<u64>> for &'a u64 {
    open spec fn obeys_bitand_spec() -> bool {
        true
    }

    open spec fn bitand_req(self, other: Checked<u64>) -> bool {
        true
    }

    open spec fn bitand_spec(self, other: Checked<u64>) -> Checked<u64> {
        Checked(Some(*self)).conjunction(other)
    }
}

/// `raw & &checked`.
impl<'a> std::ops::BitAnd<&'a Checked<u64>> for u64 {
    type Output = Checked<u64>;

    fn bitand(self, other: &'a Checked<u64>) -> (r: Checked<u64>)
        ensures
            r == Checked(Some(self)).conjunction(*other),
    {
        self & *other
    }
}

impl<'a> vstd::std_specs::ops::BitAndSpecImpl<&'a Checked<u64>> for u64 {
    open spec fn obeys_bitand_spec() -> bool {
        true
    }

    open spec fn bitand_req(self, other: &'a Checked<u64>) -> bool {
        true
    }

    open spec fn bitand_spec(self, other: &'a Checked<u64>) -> Checked<u64> {
        Checked(Some(self)).conjunction(*other)
    }
}

/// `&raw & &checked`.
impl<'a, 'b> std::ops::BitAnd<&'a Checked<u64>> for &'b u64 {
    type Output = Checked<u64>;

    fn bitand(self, other: &'a Checked<u64>) -> (r: Checked<u64>)
        ensures
            r == Checked(Some(*self)).conjunction(*other),
    {
        *self & *other
    }
}

impl<'a, 'b> vstd::std_specs::ops::BitAndSpecImpl<&'a Checked<u64>> for &'b u64 {
    open spec fn obeys_bitand_spec() -> bool {
        true
    }

    open spec fn bitand_req(self, other: &'a Checked<u64>) -> bool {
        true
    }

    open spec fn bitand_spec(self, other: &'a Checked<u64>) -> Checked<u64> {
        Checked(Some(*self)).conjunction(*other)
    }
}

/// `raw | checked`: the bitwise or of a raw and a checked `u64`.
impl std::ops::BitOr<Checked<u64>> for u64 {
    type Output = Checked<u64>;

    fn bitor(self, other: Checked<u64>) -> (r: Checked<u64>)
        ensures
            r == Checked(Some(self)).disjunction(other),
    {
        Checked(Some(self)) | other
    }
}

impl vstd::std_specs::ops::BitOrSpecImpl<Checked<u64>> for u64 {
    open spec fn obeys_bitor_spec() -> bool {
        true
    }

    open spec fn bitor_req(self, other: Checked<u64>) -> bool {
        true
    }

    open spec fn bitor_spec(self, other: Checked<u64>) -> Checked<u64> {
        Checked(Some(self)).disjunction(other)
    }
}

/// `&raw | checked`.
impl<'a> std::ops::BitOr<Checked<u64>> for &'a u64 {
    type Output = Checked<u64>;

    fn bitor(self, other: Checked<u64>) -> (r: Checked<u64>)
        ensures
            r == Checked(Some(*self)).disjunction(other),
    {
        *self | other
    }
}

impl<'a> vstd::std_specs::ops::BitOrSpecImpl<Checked<u64>> for &'a u64 {
    open spec fn obeys_bitor_spec() -> bool {
        true
    }

    open spec fn bitor_req(self, other: Checked<u64>) -> bool {
        true
    }

    open spec fn bitor_spec(self, other: Checked<u64>) -> Checked<u64> {
        Checked(Some(*self)).disjunction(other)
    }
}

/// `raw | &checked`.
impl<'a> std::ops::BitOr<&'a Checked<u64>> for u64 {
    type Output = Checked<u64>;

    fn bitor(self, other: &'a Checked<u64>) -> (r: Checked<u64>)
        ensures
            r == Checked(Some(self)).disjunction(*other),
    {
        self | *other
    }
}

impl<'a> vstd::std_specs::ops::BitOrSpecImpl<&'a Checked<u64>> for u64 {
    open spec fn obeys_bitor_spec() -> bool {
        true
    }

    open spec fn bitor_req(self, other: &'a Checked<u64>) -> bool {
        true
    }

    open spec fn bitor_spec(self, other: &'a Checked<u64>) -> Checked<u64> {
        Checked(Some(self)).disjunction(*other)
    }
}

/// `&raw | &checked`.
impl<'a, 'b> std::ops::BitOr<&'a Checked<u64>> for &'b u64 {
    type Output = Checked<u64>;

    fn bitor(self, other: &'a Checked<u64>) -> (r: Checked<u64>)
        ensures
            r == Checked(Some(*self)).disjunction(*other),
    {
        *self | *other
    }
}

impl<'a, 'b> vstd::std_specs::ops::BitOrSpecImpl<&'a Checked<u64>> for &'b u64 {
    open spec fn obeys_bitor_spec() -> bool {
        true
    }

    open spec fn bitor_req(self, other: &'a Checked<u64>) -> bool {
        true
    }

    open spec fn bitor_spec(self, other: &'a Checked<u64>) -> Checked<u64> {
        Checked(Some(*self)).disjunction(*other)
    }
}

/// `raw ^ checked`: the bitwise exclusive or of a raw and a checked `u64`.
impl std::ops::BitXor<Checked<u64>> for u64 {
    type Output = Checked<u64>;

    fn bitxor(self, other: Checked<u64>) -> (r: Checked<u64>)
        ensures
            r == Checked(Some(self)).exclusion(other),
    {
        Checked(Some(self)) ^ other
    }
}

impl vstd::std_specs::ops::BitXorSpecImpl<Checked<u64>> for u64 {
    open spec fn obeys_bitxor_spec() -> bool {
        true
    }

    open spec fn bitxor_req(self, other: Checked<u64>) -> bool {
        true
    }

    open spec fn bitxor_spec(self, other: Checked<u64>) -> Checked<u64> {
        Checked(Some(self)).exclusion(other)
    }
}

/// `&raw ^ checked`.
impl<'a> std::ops::BitXor<Checked<u64>> for &'a u64 {
    type Output = Checked<u64>;

    fn bitxor(self, other: Checked<u64>) -> (r: Checked<u64>)
        ensures
            r == Checked(Some(*self)).exclusion(other),
    {
        *self ^ other
    }
}

impl<'a> vstd::std_specs::ops::BitXorSpecImpl<Checked<u64>> for &'a u64 {
    open spec fn obeys_bitxor_spec() -> bool {
        true
    }

    open spec fn bitxor_req(self, other: Checked<u64>) -> bool {
        true
    }

    open spec fn bitxor_spec(self, other: Checked<u64>) -> Checked<u64> {
        Checked(Some(*self)).exclusion(other)
    }
}

/// `raw ^ &checked`.
impl<'a> std::ops::BitXor<&'a Checked<u64>> for u64 {
    type Output = Checked<u64>;

    fn bitxor(self, other: &'a Checked<u64>) -> (r: Checked<u64>)
        ensures
            r == Checked(Some(self)).exclusion(*other),
    {
        self ^ *other
    }
}

impl<'a> vstd::std_specs::ops::BitXorSpecImpl<&'a Checked<u64>> for u64 {
    open spec fn obeys_bitxor_spec() -> bool {
        true
    }

    open spec fn bitxor_req(self, other: &'a Checked<u64>) -> bool {
        true
    }

    open spec fn bitxor_spec(self, other: &'a Checked<u64>) -> Checked<u64> {
        Checked(Some(self)).exclusion(*other)
    }
}

/// `&raw ^ &checked`.
impl<'a, 'b> std::ops::BitXor<&'a Checked<u64>> for &'b u64 {
    type Output = Checked<u64>;

    fn bitxor(self, other: &'a Checked<u64>) -> (r: Checked<u64>)
        ensures
            r == Checked(Some(*self)).exclusion(*other),
    {
        *self ^ *other
    }
}

impl<'a, 'b> vstd::std_specs::ops::BitXorSpecImpl<&'a Checked<u64>> for &'b u64 {
    open spec fn obeys_bitxor_spec() -> bool {
        true
    }

    open spec fn bitxor_req(self, other: &'a Checked<u64>) -> bool {
        true
    }

    open spec fn bitxor_spec(self, other: &'a Checked<u64>) -> Checked<u64> {
        Checked(Some(*self)).exclusion(*other)
    }
}

/// `raw << checked`: the left shift of a raw `u64` by a checked amount.
impl std::ops::Shl<Checked<u32>> for u64 {
    type Output = Checked<u64>;

    fn shl(self, amount: Checked<u32>) -> (r: Checked<u64>)
        ensures
            r == Checked(Some(self)).shifted_left(amount),
    {
        Checked(Some(self)) << amount
    }
}

impl vstd::std_specs::ops::ShlSpecImpl<Checked<u32>> for u64 {
    open spec fn obeys_shl_spec() -> bool {
        true
    }

    open spec fn shl_req(self, amount: Checked<u32>) -> bool {
        true
    }

    open spec fn shl_spec(self, amount: Checked<u32>) -> Checked<u64> {
        Checked(Some(self)).shifted_left(amount)
    }
}

/// `&raw << checked`.
impl<'a> std::ops::Shl<Checked<u32>> for &'a u64 {
    type Output = Checked<u64>;

    fn shl(self, amount: Checked<u32>) -> (r: Checked<u64>)
        ensures
            r == Checked(Some(*self)).shifted_left(amount),
    {
        *self << amount
    }
}

impl<'a> vstd::std_specs::ops::ShlSpecImpl<Checked<u32>> for &'a u64 {
    open spec fn obeys_shl_spec() -> bool {
        true
    }

    open spec fn shl_req(self, amount: Checked<u32>) -> bool {
        true
    }

    open spec fn shl_spec(self, amount: Checked<u32>) -> Checked<u64> {
        Checked(Some(*self)).shifted_left(amount)
    }
}

/// `raw << &checked`.
impl<'a> std::ops::Shl<&'a Checked<u32>> for u64 {
    type Output = Checked<u64>;

    fn shl(self, amount: &'a Checked<u32>) -> (r: Checked<u64>)
        ensures
            r == Checked(Some(self)).shifted_left(*amount),
    {
        self << *amount
    }
}

impl<'a> vstd::std_specs::ops::ShlSpecImpl<&'a Checked<u32>> for u64 {
    open spec fn obeys_shl_spec() -> bool {
        true
    }

    open spec fn shl_req(self, amount: &'a Checked<u32>) -> bool {
        true
    }

    open spec fn shl_spec(self, amount: &'a Checked<u32>) -> Checked<u64> {
        Checked(Some(self)).shifted_left(*amount)
    }
}

/// `&raw << &checked`.
impl<'a, 'b> std::ops::Shl<&'a Checked<u32>> for &'b u64 {
    type Output = Checked<u64>;

    fn shl(self, amount: &'a Checked<u32>) -> (r: Checked<u64>)
        ensures
            r == Checked(Some(*self)).shifted_left(*amount),
    {
        *self << *amount
    }
}

impl<'a, 'b> vstd::std_specs::ops::ShlSpecImpl<&'a Checked<u32>> for &'b u64 {
    open spec fn obeys_shl_spec() -> bool {
        true
    }

    open spec fn shl_req(self, amount: &'a Checked<u32>) -> bool {
        true
    }

    open spec fn shl_spec(self, amount: &'a Checked<u32>) -> Checked<u64> {
        Checked(Some(*self)).shifted_left(*amount)
    }
}

/// `raw >> checked`: the right shift of a raw `u64` by a checked amount.
impl std::ops::Shr<Checked<u32>> for u64 {
    type Output = Checked<u64>;

    fn shr(self, amount: Checked<u32>) -> (r: Checked<u64>)
        ensures
            r == Checked(Some(self)).shifted_right(amount),
    {
        Checked(Some(self)) >> amount
    }
}

impl vstd::std_specs::ops::ShrSpecImpl<Checked<u32>> for u64 {
    open spec fn obeys_shr_spec() -> bool {
        true
    }

    open spec fn shr_req(self, amount: Checked<u32>) -> bool {
        true
    }

    open spec fn shr_spec(self, amount: Checked<u32>) -> Checked<u64> {
        Checked(Some(self)).shifted_right(amount)
    }
}

/// `&raw >> checked`.
impl<'a> std::ops::Shr<Checked<u32>> for &'a u64 {
    type Output = Checked<u64>;

    fn shr(self, amount: Checked<u32>) -> (r: Checked<u64>)
        ensures
            r == Checked(Some(*self)).shifted_right(amount),
    {
        *self >> amount
    }
}

impl<'a> vstd::std_specs::ops::ShrSpecImpl<Checked<u32>> for &'a u64 {
    open spec fn obeys_shr_spec() -> bool {
        true
    }

    open spec fn shr_req(self, amount: Checked<u32>) -> bool {
        true
    }

    open spec fn shr_spec(self, amount: Checked<u32>) -> Checked<u64> {
        Checked(Some(*self)).shifted_right(amount)
    }
}

/// `raw >> &checked`.
impl<'a> std::ops::Shr<&'a Checked<u32>> for u64 {
    type Output = Checked<u64>;

    fn shr(self, amount: &'a Checked<u32>) -> (r: Checked<u64>)
        ensures
            r == Checked(Some(self)).shifted_right(*amount),
    {
        self >> *amount
    }
}

impl<'a> vstd::std_specs::ops::ShrSpecImpl<&'a Checked<u32>> for u64 {
    open spec fn obeys_shr_spec() -> bool {
        true
    }

    open spec fn shr_req(self, amount: &'a Checked<u32>) -> bool {
        true
    }

    open spec fn shr_spec(self, amount: &'a Checked<u32>) -> Checked<u64> {
        Checked(Some(self)).shifted_right(*amount)
    }
}

/// `&raw >> &checked`.
impl<'a, 'b> std::ops::Shr<&'a Checked<u32>> for &'b u64 {
    type Output = Checked<u64>;

    fn shr(self, amount: &'a Checked<u32>) -> (r: Checked<u64>)
        ensures
            r == Checked(Some(*self)).shifted_right(*amount),
    {
        *self >> *amount
    }
}

impl<'a, 'b> vstd::std_specs::ops::ShrSpecImpl<&'a Checked<u32>> for &'b u64 {
    open spec fn obeys_shr_spec() -> bool {
        true
    }

    open spec fn shr_req(self, amount: &'a Checked<u32>) -> bool {
        true
    }

    open spec fn shr_spec(self, amount: &'a Checked<u32>) -> Checked<u64> {
        Checked(Some(*self)).shifted_right(*amount)
    }
}

/// A raw `u64` on the left counts as the valid integer it is: every operator yields between
/// a raw and a checked integer what it yields between the two as checked integers.
pub proof fn law_raw_left_operand_u64(a: u64, y: Checked<u64>, amount: Checked<u32>)
    ensures
        a.add_spec(y) == Checked(Some(a)).add_spec(y),
        a.sub_spec(y) == Checked(Some(a)).sub_spec(y),
        a.mul_spec(y) == Checked(Some(a)).mul_spec(y),
        a.div_spec(y) == Checked(Some(a)).div_spec(y),
        a.rem_spec(y) == Checked(Some(a)).rem_spec(y),
        a.bitand_spec(y) == Checked(Some(a)).bitand_spec(y),
        a.bitor_spec(y) == Checked(Some(a)).bitor_spec(y),
        a.bitxor_spec(y) == Checked(Some(a)).bitxor_spec(y),
        a.shl_spec(amount) == Checked(Some(a)).shl_spec(amount),
        a.shr_spec(amount) == Checked(Some(a)).shr_spec(amount),
{
}

} // verus!
