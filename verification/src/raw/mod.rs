//! The operators whose left operand is a raw integer, one file for each integer type.

pub mod lhs_i16;
pub mod lhs_i32;
pub mod lhs_i64;
pub mod lhs_i8;
pub mod lhs_isize;
pub mod lhs_u16;
pub mod lhs_u32;
pub mod lhs_u64;
pub mod lhs_u8;
pub mod lhs_usize;
