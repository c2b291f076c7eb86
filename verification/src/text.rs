//! Text forms of a range-checked value and of a rejection.
//!
//! Both forms of a value show the payload alone; the bounds are never shown.

use crate::error::RangeError;
use crate::range_type::RangeType;
use core::fmt::{Debug, Display};
use vstd::prelude::*;
use vstd::string::*;

verus! {

/// `s` is the text that `T`'s `Display` gives for `v`.
pub open spec fn displays<T: Display>(v: T, s: Seq<char>) -> bool {
    exists|t: String| #[trigger] to_string_from_display_ensures::<T>(&v, t) && t@ == s
}

/// The text that `format!("{:?}", v)` gives, that is what `T`'s `Debug`
/// writes for `v`. Nothing is claimed of it.
#[verifier::external_body]
fn debug_text<T: Debug>(v: &T) -> String {
    format!("{:?}", v)
}

/// `s` is a text that formatting `v` with `{:?}` returned.
///
/// What `T`'s `Debug` writes is `T`'s own business, so this says no more than
/// that `s` came out of that one call for `v`: a text made any other way does
/// not satisfy it.
pub closed spec fn debugs<T: Debug>(v: T, s: String) -> bool {
    call_ensures(debug_text::<T>, (&v,), s)
}

impl<T: PartialOrd + Display> RangeType<T> {
    /// The display form: the payload's own text and nothing else.
    pub fn to_string(&self) -> (s: String)
        ensures
            displays(self@.val, s@),
    {
        self.val_ref().to_string()
    }
}

impl<T: PartialOrd + Debug> RangeType<T> {
    /// The debug form: the payload's debug text and nothing else.
    pub fn to_debug_string(&self) -> (s: String)
        ensures
            debugs(self@.val, s),
    {
        debug_text(self.val_ref())
    }
}

impl<T: Display> RangeError<T> {
    /// The text of the rejection: `"{val} is not in the range {start}..{end}"`
    /// for a range violation, `"Ranges are unequal"` for mismatched bounds.
    pub fn message(&self) -> (s: String)
        ensures
            match *self {
                RangeError::OutOfRange { val, start, end } => exists|
                    v: Seq<char>,
                    lo: Seq<char>,
                    hi: Seq<char>,
                |
                    {
                        &&& displays(val, v)
                        &&& displays(start, lo)
                        &&& displays(end, hi)
                        &&& s@ == v + " is not in the range "@ + lo + ".."@ + hi
                    },
                RangeError::UnequalRanges => s@ == "Ranges are unequal"@,
            },
    {
        match self {
            RangeError::OutOfRange { val, start, end } => {
                let mut s = val.to_string();
                let lo = start.to_string();
                let hi = end.to_string();
                let ghost v = s@;
                s.append(" is not in the range ");
                s.append(lo.as_str());
                s.append("..");
                s.append(hi.as_str());
                assert(displays(*val, v) && displays(*start, lo@) && displays(*end, hi@));
                s
            },
            RangeError::UnequalRanges => String::from_str("Ranges are unequal"),
        }
    }
}

} // verus!
