//! The ways in which a range-checked operation is rejected.

use vstd::prelude::*;

verus! {

/// Why a construction or an arithmetic operation was rejected.
#[derive(Debug, PartialEq, Eq)]
pub enum RangeError<T> {
    /// `val` lies below `start` or above `end`.
    OutOfRange { val: T, start: T, end: T },
    /// The two operands of an arithmetic operation carry different bounds.
    UnequalRanges,
}

} // verus!
