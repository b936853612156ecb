//! Checked arithmetic with ordinary operators.
//!
//! [`Checked`] holds either an integer or the mark that an earlier operation overflowed.
//! Every operator checks its result and hands the mark on instead of wrapping or panicking:
//! overflow, underflow, division by zero and a shift by too many bits all end in the mark, and
//! the mark stays until the caller looks at it.
//!
//! - [`width`] models the integer types and defines what each checked primitive yields;
//!   [`primitives`] holds the model and the primitives of each type.
//! - [`num`] defines [`Checked`], its conversions and what each operation on it yields.
//! - [`ops`] holds the operators with a checked integer on the left, [`raw`] those with a raw
//!   integer on the left.
//! - [`order`] says how checked integers compare.
//! - [`option_like`] lends a checked integer the methods of `Option`.
//! - [`text`] writes a checked integer out.
//! - [`laws`] states what holds of all of these together.

pub mod laws;
pub mod num;
pub mod ops;
pub mod option_like;
pub mod order;
pub mod primitives;
pub mod raw;
pub mod text;
pub mod width;

pub use num::Checked;
pub use option_like::{AsMutOption, AsRefOption, IntoOption};
pub use width::{FixedWidth, Primitive};
