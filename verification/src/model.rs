//! The mathematical model of a range-checked value, and the rules that decide
//! whether an operation is accepted.
//!
//! Everything here is stated over the order and the equality that the payload
//! type declares for itself (`partial_cmp_spec`, `eq_spec`). For the primitive
//! integers these are the usual `<` and `==`.

use crate::error::RangeError;
use core::cmp::Ordering;
use vstd::prelude::*;
use vstd::std_specs::cmp::{PartialEqSpec, PartialOrdSpec};

verus! {

/// What a range-checked value stands for: a payload and the inclusive bounds
/// it is held to.
pub struct RangeView<T> {
    pub val: T,
    pub start: T,
    pub end: T,
}

/// `val` is neither less than `start` nor greater than `end`.
pub open spec fn admits<T: PartialOrd>(start: T, end: T, val: T) -> bool {
    &&& val.partial_cmp_spec(&start) != Some(Ordering::Less)
    &&& val.partial_cmp_spec(&end) != Some(Ordering::Greater)
}

/// `outside` is an answer that `T`'s own `<` and `>` can give to the question
/// "is `val` less than `start`, or else greater than `end`?".
///
/// This speaks of every `T`, also of one whose comparisons are not known to
/// follow `partial_cmp_spec`. Where they do follow it, the only possible
/// answer is `!admits(start, end, val)`.
pub open spec fn comparisons_say<T: PartialOrd>(start: T, end: T, val: T, outside: bool) -> bool {
    exists|below: bool| #[trigger]
        call_ensures(T::lt, (&val, &start), below) && if below {
            outside
        } else {
            exists|above: bool| #[trigger]
                call_ensures(T::gt, (&val, &end), above) && outside == above
        }
}

/// `same` is an answer that `T`'s own `==` can give to the question "does `a`
/// have the lower bound of `b`, and then also its upper bound?".
///
/// Like [`comparisons_say`], this speaks of every `T`. Where `==` follows
/// `eq_spec`, the only possible answer is `a.same_bounds(b)`.
pub open spec fn equalities_say<T: PartialOrd>(a: RangeView<T>, b: RangeView<T>, same: bool) -> bool {
    exists|lower: bool| #[trigger]
        call_ensures(T::eq, (&a.start, &b.start), lower) && if lower {
            exists|upper: bool| #[trigger]
                call_ensures(T::eq, (&a.end, &b.end), upper) && same == upper
        } else {
            !same
        }
}

/// `equal` is an answer that `T`'s own `==` can give to the question "do `a`
/// and `b` have the same payload, and then also the same bounds?".
pub open spec fn parts_say<T: PartialOrd>(a: RangeView<T>, b: RangeView<T>, equal: bool) -> bool {
    exists|payload: bool| #[trigger]
        call_ensures(T::eq, (&a.val, &b.val), payload) && if payload {
            equalities_say(a, b, equal)
        } else {
            !equal
        }
}

/// `r` is an outcome that checking `val` against `start` and `end` can have:
/// what `T`'s comparisons answer decides between the value with exactly these
/// three parts and the range violation that names them.
pub open spec fn check_yields<T: PartialOrd>(
    val: T,
    start: T,
    end: T,
    r: Result<RangeView<T>, RangeError<T>>,
) -> bool {
    &&& comparisons_say(start, end, val, r is Err)
    &&& r matches Ok(x) ==> x == (RangeView { val, start, end })
    &&& r matches Err(e) ==> e == (RangeError::OutOfRange { val, start, end })
}

impl<T: PartialOrd> RangeView<T> {
    /// The payload lies within the bounds.
    pub open spec fn in_bounds(self) -> bool {
        admits(self.start, self.end, self.val)
    }

    /// The outcome of checking `val` against `start` and `end`: the value
    /// with exactly these three parts, or a range violation that names them.
    pub open spec fn checked(val: T, start: T, end: T) -> Result<RangeView<T>, RangeError<T>> {
        if admits(start, end, val) {
            Ok(RangeView { val, start, end })
        } else {
            Err(RangeError::OutOfRange { val, start, end })
        }
    }

    /// The outcome of holding the same payload to other bounds.
    pub open spec fn with_range(self, start: T, end: T) -> Result<RangeView<T>, RangeError<T>> {
        Self::checked(self.val, start, end)
    }

    /// Both bounds of `self` equal those of `other`.
    pub open spec fn same_bounds(self, other: Self) -> bool {
        self.start.eq_spec(&other.start) && self.end.eq_spec(&other.end)
    }

    /// The outcome of an arithmetic operation on `self` and `other` whose
    /// numeric result is `val`: a mismatch of bounds is reported first, and
    /// only then is `val` checked against the bounds of `self`.
    pub open spec fn combined(self, other: Self, val: T) -> Result<RangeView<T>, RangeError<T>> {
        if self.same_bounds(other) {
            Self::checked(val, self.start, self.end)
        } else {
            Err(RangeError::UnequalRanges)
        }
    }
}

} // verus!
