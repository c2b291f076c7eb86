//! Arithmetic on range-checked values.
//!
//! A binary operation first asks that both operands carry the same bounds,
//! then computes with the payload type's own operator, then checks the result
//! against those bounds. Negation computes `-val` and checks it against the
//! unchanged bounds: they are not mirrored.
//!
//! The payload type's operator may have a precondition of its own (for the
//! primitive integers: no overflow, no division by zero). It is asked of the
//! caller wherever the operator is reached, and nothing is added to it.

use crate::error::RangeError;
use crate::model::{admits, check_yields, equalities_say, RangeView};
use crate::range_type::{view_of, RangeType};
use core::ops::{Add, Div, Mul, Neg, Sub};
use vstd::pervasive::unreached;
use vstd::prelude::*;
use vstd::std_specs::cmp::{PartialEqSpec, PartialOrdSpec};
use vstd::std_specs::ops::{AddSpec, DivSpec, MulSpec, NegSpec, SubSpec};

verus! {

broadcast use RangeType::lemma_from_view;

impl<T: PartialOrd + Copy> RangeType<T> {
    /// Whether `other` carries the bounds of `self`.
    fn shares_bounds(self, other: RangeType<T>) -> (same: bool)
        ensures
            equalities_say(self@, other@, same),
            T::obeys_eq_spec() ==> same == self@.same_bounds(other@),
    {
        *self.start_ref() == *other.start_ref() && *self.end_ref() == *other.end_ref()
    }
}

impl<T: PartialOrd + Copy + Neg<Output = T>> RangeType<T> {
    /// Negate the payload and check it against the unchanged bounds.
    ///
    /// The result is the negated payload under the bounds of `self`, or the
    /// range violation that names the negated payload and those bounds.
    pub fn try_neg(self) -> (r: Result<RangeType<T>, RangeError<T>>)
        requires
            self@.val.neg_req(),
        ensures
            exists|v: T| #[trigger]
                call_ensures(T::neg, (self@.val,), v) && check_yields(
                    v,
                    self@.start,
                    self@.end,
                    view_of(r),
                ),
            (T::obeys_neg_spec() && T::obeys_partial_cmp_spec()) ==> view_of(r)
                == RangeView::checked(self@.val.neg_spec(), self@.start, self@.end),
    {
        let range = self.range();
        Self::try_new(self.as_raw().neg(), range)
    }
}

impl<T: PartialOrd + Copy + Neg<Output = T>> Neg for RangeType<T> {
    type Output = RangeType<T>;

    /// `-self`, for a payload whose negation lies within the bounds.
    fn neg(self) -> (r: RangeType<T>)
        ensures
            r@ == (RangeView { val: self@.val.neg_spec(), start: self@.start, end: self@.end }),
    {
        match self.try_neg() {
            Ok(r) => r,
            Err(_) => unreached(),
        }
    }
}

impl<T: PartialOrd + Copy + Neg<Output = T>> vstd::std_specs::ops::NegSpecImpl for RangeType<T> {
    open spec fn obeys_neg_spec() -> bool {
        true
    }

    open spec fn neg_req(self) -> bool {
        &&& T::obeys_neg_spec()
        &&& T::obeys_partial_cmp_spec()
        &&& self@.val.neg_req()
        &&& admits(self@.start, self@.end, self@.val.neg_spec())
    }

    open spec fn neg_spec(self) -> RangeType<T> {
        RangeType::from_view(
            RangeView { val: self@.val.neg_spec(), start: self@.start, end: self@.end },
        )
    }
}

impl<T: PartialOrd + Copy + Add<Output = T>> RangeType<T> {
    /// Add the payloads of two values that carry the same bounds.
    ///
    /// Operands with different bounds are rejected before anything is
    /// computed. Otherwise the result is the sum under the shared bounds,
    /// or the range violation that names the sum and those bounds.
    pub fn try_add(self, other: RangeType<T>) -> (r: Result<RangeType<T>, RangeError<T>>)
        requires
            (T::obeys_eq_spec() && !self@.same_bounds(other@)) || self@.val.add_req(other@.val),
        ensures
            equalities_say(self@, other@, !(r matches Err(RangeError::UnequalRanges))),
            r matches Err(RangeError::UnequalRanges) || exists|v: T| #[trigger]
                call_ensures(T::add, (self@.val, other@.val), v) && check_yields(
                    v,
                    self@.start,
                    self@.end,
                    view_of(r),
                ),
            (T::obeys_eq_spec() && T::obeys_add_spec() && T::obeys_partial_cmp_spec()) ==> view_of(
                r,
            ) == self@.combined(other@, self@.val.add_spec(other@.val)),
    {
        if !self.shares_bounds(other) {
            return Err(RangeError::UnequalRanges);
        }
        let range = self.range();
        Self::try_new(self.as_raw().add(other.as_raw()), range)
    }
}

impl<T: PartialOrd + Copy + Add<Output = T>> Add for RangeType<T> {
    type Output = RangeType<T>;

    /// `self + other`, for operands with the same bounds whose sum lies
    /// within them.
    fn add(self, other: RangeType<T>) -> (r: RangeType<T>)
        ensures
            r@ == (RangeView {
                val: self@.val.add_spec(other@.val),
                start: self@.start,
                end: self@.end,
            }),
    {
        match self.try_add(other) {
            Ok(r) => r,
            Err(_) => unreached(),
        }
    }
}

impl<T: PartialOrd + Copy + Add<Output = T>> vstd::std_specs::ops::AddSpecImpl for RangeType<T> {
    open spec fn obeys_add_spec() -> bool {
        true
    }

    open spec fn add_req(self, other: RangeType<T>) -> bool {
        &&& T::obeys_eq_spec()
        &&& T::obeys_add_spec()
        &&& T::obeys_partial_cmp_spec()
        &&& self@.same_bounds(other@)
        &&& self@.val.add_req(other@.val)
        &&& admits(self@.start, self@.end, self@.val.add_spec(other@.val))
    }

    open spec fn add_spec(self, other: RangeType<T>) -> RangeType<T> {
        RangeType::from_view(
            RangeView { val: self@.val.add_spec(other@.val), start: self@.start, end: self@.end },
        )
    }
}

impl<T: PartialOrd + Copy + Sub<Output = T>> RangeType<T> {
    /// Subtract the payloads of two values that carry the same bounds.
    ///
    /// Operands with different bounds are rejected before anything is
    /// computed. Otherwise the result is the difference under the shared bounds,
    /// or the range violation that names the difference and those bounds.
    pub fn try_sub(self, other: RangeType<T>) -> (r: Result<RangeType<T>, RangeError<T>>)
        requires
            (T::obeys_eq_spec() && !self@.same_bounds(other@)) || self@.val.sub_req(other@.val),
        ensures
            equalities_say(self@, other@, !(r matches Err(RangeError::UnequalRanges))),
            r matches Err(RangeError::UnequalRanges) || exists|v: T| #[trigger]
                call_ensures(T::sub, (self@.val, other@.val), v) && check_yields(
                    v,
                    self@.start,
                    self@.end,
                    view_of(r),
                ),
            (T::obeys_eq_spec() && T::obeys_sub_spec() && T::obeys_partial_cmp_spec()) ==> view_of(
                r,
            ) == self@.combined(other@, self@.val.sub_spec(other@.val)),
    {
        if !self.shares_bounds(other) {
            return Err(RangeError::UnequalRanges);
        }
        let range = self.range();
        Self::try_new(self.as_raw().sub(other.as_raw()), range)
    }
}

impl<T: PartialOrd + Copy + Sub<Output = T>> Sub for RangeType<T> {
    type Output = RangeType<T>;

    /// `self - other`, for operands with the same bounds whose difference lies
    /// within them.
    fn sub(self, other: RangeType<T>) -> (r: RangeType<T>)
        ensures
            r@ == (RangeView {
                val: self@.val.sub_spec(other@.val),
                start: self@.start,
                end: self@.end,
            }),
    {
        match self.try_sub(other) {
            Ok(r) => r,
            Err(_) => unreached(),
        }
    }
}

impl<T: PartialOrd + Copy + Sub<Output = T>> vstd::std_specs::ops::SubSpecImpl for RangeType<T> {
    open spec fn obeys_sub_spec() -> bool {
        true
    }

    open spec fn sub_req(self, other: RangeType<T>) -> bool {
        &&& T::obeys_eq_spec()
        &&& T::obeys_sub_spec()
        &&& T::obeys_partial_cmp_spec()
        &&& self@.same_bounds(other@)
        &&& self@.val.sub_req(other@.val)
        &&& admits(self@.start, self@.end, self@.val.sub_spec(other@.val))
    }

    open spec fn sub_spec(self, other: RangeType<T>) -> RangeType<T> {
        RangeType::from_view(
            RangeView { val: self@.val.sub_spec(other@.val), start: self@.start, end: self@.end },
        )
    }
}

impl<T: PartialOrd + Copy + Mul<Output = T>> RangeType<T> {
    /// Multiply the payloads of two values that carry the same bounds.
    ///
    /// Operands with different bounds are rejected before anything is
    /// computed. Otherwise the result is the product under the shared bounds,
    /// or the range violation that names the product and those bounds.
    pub fn try_mul(self, other: RangeType<T>) -> (r: Result<RangeType<T>, RangeError<T>>)
        requires
            (T::obeys_eq_spec() && !self@.same_bounds(other@)) || self@.val.mul_req(other@.val),
        ensures
            equalities_say(self@, other@, !(r matches Err(RangeError::UnequalRanges))),
            r matches Err(RangeError::UnequalRanges) || exists|v: T| #[trigger]
                call_ensures(T::mul, (self@.val, other@.val), v) && check_yields(
                    v,
                    self@.start,
                    self@.end,
                    view_of(r),
                ),
            (T::obeys_eq_spec() && T::obeys_mul_spec() && T::obeys_partial_cmp_spec()) ==> view_of(
                r,
            ) == self@.combined(other@, self@.val.mul_spec(other@.val)),
    {
        if !self.shares_bounds(other) {
            return Err(RangeError::UnequalRanges);
        }
        let range = self.range();
        Self::try_new(self.as_raw().mul(other.as_raw()), range)
    }
}

impl<T: PartialOrd + Copy + Mul<Output = T>> Mul for RangeType<T> {
    type Output = RangeType<T>;

    /// `self * other`, for operands with the same bounds whose product lies
    /// within them.
    fn mul(self, other: RangeType<T>) -> (r: RangeType<T>)
        ensures
            r@ == (RangeView {
                val: self@.val.mul_spec(other@.val),
                start: self@.start,
                end: self@.end,
            }),
    {
        match self.try_mul(other) {
            Ok(r) => r,
            Err(_) => unreached(),
        }
    }
}

impl<T: PartialOrd + Copy + Mul<Output = T>> vstd::std_specs::ops::MulSpecImpl for RangeType<T> {
    open spec fn obeys_mul_spec() -> bool {
        true
    }

    open spec fn mul_req(self, other: RangeType<T>) -> bool {
        &&& T::obeys_eq_spec()
        &&& T::obeys_mul_spec()
        &&& T::obeys_partial_cmp_spec()
        &&& self@.same_bounds(other@)
        &&& self@.val.mul_req(other@.val)
        &&& admits(self@.start, self@.end, self@.val.mul_spec(other@.val))
    }

    open spec fn mul_spec(self, other: RangeType<T>) -> RangeType<T> {
        RangeType::from_view(
            RangeView { val: self@.val.mul_spec(other@.val), start: self@.start, end: self@.end },
        )
    }
}

impl<T: PartialOrd + Copy + Div<Output = T>> RangeType<T> {
    /// Divide the payloads of two values that carry the same bounds.
    ///
    /// Operands with different bounds are rejected before anything is
    /// computed. Otherwise the result is the quotient under the shared bounds,
    /// or the range violation that names the quotient and those bounds.
    pub fn try_div(self, other: RangeType<T>) -> (r: Result<RangeType<T>, RangeError<T>>)
        requires
            (T::obeys_eq_spec() && !self@.same_bounds(other@)) || self@.val.div_req(other@.val),
        ensures
            equalities_say(self@, other@, !(r matches Err(RangeError::UnequalRanges))),
            r matches Err(RangeError::UnequalRanges) || exists|v: T| #[trigger]
                call_ensures(T::div, (self@.val, other@.val), v) && check_yields(
                    v,
                    self@.start,
                    self@.end,
                    view_of(r),
                ),
            (T::obeys_eq_spec() && T::obeys_div_spec() && T::obeys_partial_cmp_spec()) ==> view_of(
                r,
            ) == self@.combined(other@, self@.val.div_spec(other@.val)),
    {
        if !self.shares_bounds(other) {
            return Err(RangeError::UnequalRanges);
        }
        let range = self.range();
        Self::try_new(self.as_raw().div(other.as_raw()), range)
    }
}

impl<T: PartialOrd + Copy + Div<Output = T>> Div for RangeType<T> {
    type Output = RangeType<T>;

    /// `self / other`, for operands with the same bounds whose quotient lies
    /// within them.
    fn div(self, other: RangeType<T>) -> (r: RangeType<T>)
        ensures
            r@ == (RangeView {
                val: self@.val.div_spec(other@.val),
                start: self@.start,
                end: self@.end,
            }),
    {
        match self.try_div(other) {
            Ok(r) => r,
            Err(_) => unreached(),
        }
    }
}

impl<T: PartialOrd + Copy + Div<Output = T>> vstd::std_specs::ops::DivSpecImpl for RangeType<T> {
    open spec fn obeys_div_spec() -> bool {
        true
    }

    open spec fn div_req(self, other: RangeType<T>) -> bool {
        &&& T::obeys_eq_spec()
        &&& T::obeys_div_spec()
        &&& T::obeys_partial_cmp_spec()
        &&& self@.same_bounds(other@)
        &&& self@.val.div_req(other@.val)
        &&& admits(self@.start, self@.end, self@.val.div_spec(other@.val))
    }

    open spec fn div_spec(self, other: RangeType<T>) -> RangeType<T> {
        RangeType::from_view(
            RangeView { val: self@.val.div_spec(other@.val), start: self@.start, end: self@.end },
        )
    }
}

} // verus!
