//! The range-checked value: its constructors and accessors.

use crate::error::RangeError;
use crate::model::{admits, check_yields, RangeView};
use core::ops::Range;
use vstd::pervasive::unreached;
use vstd::prelude::*;
use vstd::std_specs::cmp::PartialOrdSpec;

verus! {

/// A range-checked number type.
///
/// The payload of every value lies within its bounds: no function of this
/// crate hands out a value for which that fails.
pub struct RangeType<T: PartialOrd> {
    val: T,
    start: T,
    end: T,
}

impl<T: PartialOrd> View for RangeType<T> {
    type V = RangeView<T>;

    closed spec fn view(&self) -> RangeView<T> {
        RangeView { val: self.val, start: self.start, end: self.end }
    }
}

/// The model of an outcome: a value is replaced by its view, an error stays.
pub open spec fn view_of<T: PartialOrd>(r: Result<RangeType<T>, RangeError<T>>) -> Result<
    RangeView<T>,
    RangeError<T>,
> {
    match r {
        Ok(x) => Ok(x@),
        Err(e) => Err(e),
    }
}

impl<T: PartialOrd> RangeType<T> {
    /// Held by every value at every point: the payload is not below the
    /// lower bound and not above the upper bound.
    #[verifier::type_invariant]
    spec fn within_bounds(self) -> bool {
        T::obeys_partial_cmp_spec() ==> admits(self.start, self.end, self.val)
    }

    /// The value whose view is `v`.
    pub closed spec fn from_view(v: RangeView<T>) -> Self {
        RangeType { val: v.val, start: v.start, end: v.end }
    }

    /// `from_view(v)` is the one value whose view is `v`.
    pub broadcast proof fn lemma_from_view(v: RangeView<T>)
        ensures
            (#[trigger] Self::from_view(v))@ == v,
            forall|x: Self| x@ == v ==> x == Self::from_view(v),
    {
    }

    /// Create a new `RangeType`, or say why not.
    ///
    /// `val` is rejected when `val < range.start || val > range.end`, by `T`'s
    /// own comparison operators. Otherwise the result holds exactly `val`,
    /// `range.start` and `range.end`.
    pub fn try_new(val: T, range: Range<T>) -> (r: Result<RangeType<T>, RangeError<T>>)
        ensures
            check_yields(val, range.start, range.end, view_of(r)),
            T::obeys_partial_cmp_spec() ==> view_of(r) == RangeView::checked(
                val,
                range.start,
                range.end,
            ),
    {
        if val < range.start || val > range.end {
            Err(RangeError::OutOfRange { val, start: range.start, end: range.end })
        } else {
            Ok(RangeType { val, start: range.start, end: range.end })
        }
    }

    /// Create a new `RangeType`.
    ///
    /// # Arguments:
    /// * `val` - The value for the type.
    /// * `range` - The range between which the value must stay.
    ///
    /// The precondition is the check of `try_new`, for a `T` whose
    /// comparisons follow its declared order. A caller that Verus does not
    /// see and that passes a value outside the range gets a panic, never a
    /// value.
    pub fn new(val: T, range: Range<T>) -> (r: RangeType<T>)
        requires
            T::obeys_partial_cmp_spec(),
            admits(range.start, range.end, val),
        ensures
            r@ == (RangeView { val, start: range.start, end: range.end }),
    {
        match Self::try_new(val, range) {
            Ok(r) => r,
            Err(_) => unreached(),
        }
    }

    /// The payload, without giving up the value.
    pub(crate) fn val_ref(&self) -> (v: &T)
        ensures
            *v == self@.val,
    {
        &self.val
    }

    /// The lower bound, without giving up the value.
    pub(crate) fn start_ref(&self) -> (v: &T)
        ensures
            *v == self@.start,
    {
        &self.start
    }

    /// The upper bound, without giving up the value.
    pub(crate) fn end_ref(&self) -> (v: &T)
        ensures
            *v == self@.end,
    {
        &self.end
    }

    /// Yield the `RangeType`'s internal value. It lies within the bounds.
    pub fn as_raw(self) -> (v: T)
        ensures
            v == self@.val,
            T::obeys_partial_cmp_spec() ==> self@.in_bounds(),
    {
        proof {
            use_type_invariant(&self);
        }
        self.val
    }

    /// Get the range: the lower bound as `start`, the upper bound as `end`,
    /// both inclusive. The payload lies within them.
    pub fn range(self) -> (r: Range<T>)
        ensures
            r.start == self@.start,
            r.end == self@.end,
            T::obeys_partial_cmp_spec() ==> self@.in_bounds(),
    {
        proof {
            use_type_invariant(&self);
        }
        Range { start: self.start, end: self.end }
    }

    /// Convert to a `RangeType` with a different range, or say why not.
    ///
    /// The payload is checked against the new range by the rule of `try_new`.
    pub fn try_with_range(self, range: Range<T>) -> (r: Result<RangeType<T>, RangeError<T>>)
        ensures
            check_yields(self@.val, range.start, range.end, view_of(r)),
            T::obeys_partial_cmp_spec() ==> view_of(r) == self@.with_range(range.start, range.end),
    {
        Self::try_new(self.val, range)
    }

    /// Convert to a `RangeType` with a different range.
    ///
    /// # Arguments:
    /// * `range` - The new range.
    ///
    /// The payload must lie within the new range, as for `new`.
    pub fn with_range(self, range: Range<T>) -> (r: RangeType<T>)
        requires
            T::obeys_partial_cmp_spec(),
            admits(range.start, range.end, self@.val),
        ensures
            r@ == (RangeView { val: self@.val, start: range.start, end: range.end }),
    {
        Self::new(self.val, range)
    }
}

impl<T: PartialOrd + Copy> Clone for RangeType<T> {
    /// A copy: the same payload under the same bounds.
    fn clone(&self) -> (r: Self)
        ensures
            r == *self,
    {
        *self
    }
}

impl<T: PartialOrd + Copy> Copy for RangeType<T> {

}

} // verus!
