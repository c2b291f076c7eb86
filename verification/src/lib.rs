//! A number that carries the inclusive bounds it must stay within.
//!
//! A [`RangeType`] holds a payload together with a lower and an upper bound.
//! Every constructor and every arithmetic operation checks the payload against
//! the bounds, so a live value always lies inside them. An operation either
//! yields a value inside its bounds or is rejected: nothing is clamped.
//!
//! Each operation comes in two forms. The `try_` form checks at run time and
//! returns a [`RangeError`] on rejection. The plain form (`new`, `with_range`,
//! and the operators `+ - * /` and unary `-`) states the same check as a
//! precondition, which verified callers discharge statically; called from
//! code that is not verified, it panics where the check fails.

pub mod arith;
pub mod compare;
pub mod error;
pub mod laws;
pub mod model;
pub mod range_type;
pub mod text;

pub use error::RangeError;
pub use model::RangeView;
pub use range_type::RangeType;
