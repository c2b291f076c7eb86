//! What holds of every range-checked value, proved from the model.
//!
//! The executable functions state their results over [`RangeView::checked`],
//! [`RangeView::with_range`] and [`RangeView::combined`]; the laws below are
//! stated over the same functions.

use crate::error::RangeError;
use crate::model::{
    admits, check_yields, comparisons_say, equalities_say, parts_say, RangeView,
};
use crate::range_type::RangeType;
use core::cmp::Ordering;
use vstd::laws_cmp::obeys_partial_cmp_spec_properties;
use vstd::laws_eq::obeys_eq_spec_properties;
use vstd::prelude::*;
use vstd::std_specs::cmp::{OrdSpec, PartialEqSpec, PartialOrdIs, PartialOrdSpec};

verus! {

/// Where `T`'s `<` and `>` follow its declared order, they can only answer
/// "outside" for a value that the bounds do not admit, and so checking has
/// the one outcome that [`RangeView::checked`] names.
pub proof fn lemma_comparisons_follow_order<T: PartialOrd>(
    val: T,
    start: T,
    end: T,
    outside: bool,
    r: Result<RangeView<T>, RangeError<T>>,
)
    requires
        T::obeys_partial_cmp_spec(),
    ensures
        comparisons_say(start, end, val, outside) ==> outside == !admits(start, end, val),
        check_yields(val, start, end, r) ==> r == RangeView::checked(val, start, end),
{
}

/// Where `T`'s `==` follows its declared equality, it can only answer "same"
/// for bounds that are the same, and "equal" for values whose payloads are
/// equal as well.
pub proof fn lemma_equalities_follow_eq<T: PartialOrd>(
    a: RangeView<T>,
    b: RangeView<T>,
    answer: bool,
)
    requires
        T::obeys_eq_spec(),
    ensures
        equalities_say(a, b, answer) ==> answer == a.same_bounds(b),
        parts_say(a, b, answer) ==> answer == (a.val.eq_spec(&b.val) && a.same_bounds(b)),
{
}

/// A value between the bounds is accepted, and the accepted value holds
/// exactly that payload and those bounds.
///
/// "Between" is `start <= val <= end`; that the order is lawful (`a < b`
/// exactly when `b > a`) is what turns it into "not below, not above".
pub proof fn lemma_between_is_accepted<T: PartialOrd>(val: T, start: T, end: T)
    requires
        obeys_partial_cmp_spec_properties::<T>(),
        start.is_le(&val),
        val.is_le(&end),
    ensures
        admits(start, end, val),
        RangeView::checked(val, start, end) == Ok::<_, RangeError<T>>(
            RangeView { val, start, end },
        ),
{
    reveal(obeys_partial_cmp_spec_properties);
    assert(val.partial_cmp_spec(&start) == Some(Ordering::Less) <==> start.partial_cmp_spec(&val)
        == Some(Ordering::Greater));
}

/// A value below the lower bound or above the upper bound is rejected with
/// the range violation that names it and the bounds.
pub proof fn lemma_outside_is_rejected<T: PartialOrd>(val: T, start: T, end: T)
    requires
        val.is_lt(&start) || val.is_gt(&end),
    ensures
        RangeView::checked(val, start, end) == Err::<RangeView<T>, _>(
            RangeError::OutOfRange { val, start, end },
        ),
{
}

/// Bounds that cannot hold any value (`end < start`, in a lawful order)
/// reject every value.
pub proof fn lemma_crossed_bounds_reject_all<T: PartialOrd>(val: T, start: T, end: T)
    requires
        obeys_partial_cmp_spec_properties::<T>(),
        forall|a: T, b: T| #[trigger] a.partial_cmp_spec(&b) is Some,
        end.is_lt(&start),
    ensures
        RangeView::checked(val, start, end) is Err,
{
    reveal(obeys_partial_cmp_spec_properties);
    reveal(obeys_eq_spec_properties);
    if admits(start, end, val) {
        let less = Some(Ordering::Less);
        let equal = Some(Ordering::Equal);
        let greater = Some(Ordering::Greater);
        assert(val.partial_cmp_spec(&start) is Some && val.partial_cmp_spec(&end) is Some);
        if val.partial_cmp_spec(&end) == less {
            // val < end < start
            assert(val.partial_cmp_spec(&start) == less);
        } else if val.partial_cmp_spec(&start) == greater {
            // end < start < val, and yet val == end
            assert(start.partial_cmp_spec(&val) == less);
            assert(end.partial_cmp_spec(&val) == less);
            assert(val.partial_cmp_spec(&end) == greater);
        } else {
            // start == val == end
            assert(val.partial_cmp_spec(&end) == equal && val.partial_cmp_spec(&start) == equal);
            assert(val.eq_spec(&end) && val.eq_spec(&start));
            assert(end.eq_spec(&val));
            assert(end.eq_spec(&start));
            assert(end.partial_cmp_spec(&start) == equal);
        }
        assert(false);
    }
}

/// Re-ranging to bounds that the payload already satisfies succeeds and keeps
/// the payload; doing it a second time changes nothing.
pub proof fn lemma_with_range_keeps_payload<T: PartialOrd>(v: RangeView<T>, start: T, end: T)
    requires
        admits(start, end, v.val),
    ensures
        v.with_range(start, end) == Ok::<_, RangeError<T>>(RangeView { val: v.val, start, end }),
        v.with_range(start, end) matches Ok(w) && w.with_range(start, end) == Ok::<
            _,
            RangeError<T>,
        >(w),
{
}

/// Re-ranging and then re-ranging back to the first bounds gives the first
/// value again, part for part, whenever the step in between succeeds.
pub proof fn lemma_with_range_round_trip<T: PartialOrd>(v: RangeView<T>, start: T, end: T)
    requires
        v.in_bounds(),
        v.with_range(start, end) is Ok,
    ensures
        v.with_range(start, end) matches Ok(w) && w.with_range(v.start, v.end) == Ok::<
            _,
            RangeError<T>,
        >(v),
{
}

/// Operands whose bounds differ are rejected as such, whatever their payloads
/// and whatever the operation would have computed.
pub proof fn lemma_unequal_bounds_rejected<T: PartialOrd>(a: RangeView<T>, b: RangeView<T>, val: T)
    requires
        !a.same_bounds(b),
    ensures
        a.combined(b, val) == Err::<RangeView<T>, _>(RangeError::<T>::UnequalRanges),
{
}

/// With matching bounds an operation succeeds exactly when its numeric result
/// lies within them; the result then carries the bounds of the operands, and
/// a failure is a range violation, never a mismatch.
pub proof fn lemma_equal_bounds_all_or_nothing<T: PartialOrd>(
    a: RangeView<T>,
    b: RangeView<T>,
    val: T,
)
    requires
        a.same_bounds(b),
    ensures
        a.combined(b, val) is Ok <==> admits(a.start, a.end, val),
        a.combined(b, val) matches Ok(x) ==> x == (RangeView { val, start: a.start, end: a.end }),
        a.combined(b, val) matches Err(e) ==> e == (RangeError::OutOfRange {
            val,
            start: a.start,
            end: a.end,
        }),
{
}

/// Two values are equal exactly when payload, lower bound and upper bound are
/// equal: equal payloads under different bounds are unequal.
pub proof fn lemma_eq_is_structural<T: PartialOrd>(a: RangeType<T>, b: RangeType<T>)
    ensures
        a.eq_spec(&b) <==> (a@.val.eq_spec(&b@.val) && a@.same_bounds(b@)),
        !a@.same_bounds(b@) ==> !a.eq_spec(&b),
{
}

/// The order looks at the payloads alone: values with the same payloads
/// compare the same, whatever bounds they carry.
pub proof fn lemma_order_ignores_bounds<T: Ord>(
    a: RangeType<T>,
    b: RangeType<T>,
    c: RangeType<T>,
    d: RangeType<T>,
)
    requires
        a@.val == c@.val,
        b@.val == d@.val,
    ensures
        a.partial_cmp_spec(&b) == Some(a@.val.cmp_spec(&b@.val)),
        a.partial_cmp_spec(&b) == c.partial_cmp_spec(&d),
{
}

} // verus!
