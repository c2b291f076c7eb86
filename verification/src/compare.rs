//! Equality and order of range-checked values.
//!
//! The two relations are defined independently. Equality looks at the payload
//! and at both bounds. Order looks at the payload alone, so two values with
//! equal payloads and different bounds are unequal and yet neither is less
//! than the other.

use crate::model::parts_say;
use crate::range_type::RangeType;
use core::cmp::Ordering;
use vstd::prelude::*;
use vstd::std_specs::cmp::{OrdSpec, PartialEqSpec, PartialOrdSpec};

verus! {

impl<T: PartialOrd> PartialEq for RangeType<T> {
    /// Payload and both bounds match.
    fn eq(&self, other: &RangeType<T>) -> (r: bool)
        ensures
            parts_say(self@, other@, r),
    {
        *self.val_ref() == *other.val_ref() && *self.start_ref() == *other.start_ref()
            && *self.end_ref() == *other.end_ref()
    }
}

impl<T: PartialOrd> vstd::std_specs::cmp::PartialEqSpecImpl for RangeType<T> {
    open spec fn obeys_eq_spec() -> bool {
        T::obeys_eq_spec()
    }

    open spec fn eq_spec(&self, other: &RangeType<T>) -> bool {
        &&& self@.val.eq_spec(&other@.val)
        &&& self@.start.eq_spec(&other@.start)
        &&& self@.end.eq_spec(&other@.end)
    }
}

impl<T: PartialOrd + Eq> Eq for RangeType<T> {

}

impl<T: Ord> PartialOrd for RangeType<T> {
    /// The order of the payloads; the bounds play no part.
    fn partial_cmp(&self, other: &RangeType<T>) -> (r: Option<Ordering>)
        ensures
            r matches Some(o) && call_ensures(T::cmp, (&self@.val, &other@.val), o),
    {
        Some(self.val_ref().cmp(other.val_ref()))
    }
}

impl<T: Ord> vstd::std_specs::cmp::PartialOrdSpecImpl for RangeType<T> {
    open spec fn obeys_partial_cmp_spec() -> bool {
        T::obeys_cmp_spec()
    }

    open spec fn partial_cmp_spec(&self, other: &RangeType<T>) -> Option<Ordering> {
        Some(self@.val.cmp_spec(&other@.val))
    }
}

impl<T: Ord> RangeType<T> {
    /// The order of the payloads; the bounds play no part.
    pub fn cmp(&self, other: &RangeType<T>) -> (o: Ordering)
        ensures
            call_ensures(T::cmp, (&self@.val, &other@.val), o),
            T::obeys_cmp_spec() ==> o == self@.val.cmp_spec(&other@.val),
    {
        self.val_ref().cmp(other.val_ref())
    }
}

} // verus!
