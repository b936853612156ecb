//! The model and the primitives of each integer type.

pub mod prim_i16;
pub mod prim_i32;
pub mod prim_i64;
pub mod prim_i8;
pub mod prim_isize;
pub mod prim_u16;
pub mod prim_u32;
pub mod prim_u64;
pub mod prim_u8;
pub mod prim_usize;
