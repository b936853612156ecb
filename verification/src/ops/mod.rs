//! The operators whose left operand is a checked integer, one file for each.
//!
//! Each operator takes its right operand as a checked or as a raw integer, and either
//! operand by value or by reference. Every form yields what the by-value form between
//! two checked integers yields.

pub mod add;
pub mod bitand;
pub mod bitor;
pub mod bitxor;
pub mod div;
pub mod mul;
pub mod neg;
pub mod not;
pub mod rem;
pub mod shl;
pub mod shr;
pub mod sub;
