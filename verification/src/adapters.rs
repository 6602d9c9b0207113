use vstd::prelude::*;
use crate::phrase::in_phrase;
use crate::phrase::ago_phrase;
use crate::phrase::signed_phrase;
use crate::phrase::future_phrase;
use crate::phrase::past_phrase;
use crate::phrase::signed_relative_time;

verus! {

/// A value standing for a time offset that can be phrased in words.
pub trait RelativeTime {
    /// Returns a human readable string representing the time difference
    fn to_relative(&self) -> String;
}

/// A value whose type cannot carry a sign of its own: a caller who knows the
/// offset lies in the past asks for the past-tense wording explicitly.
pub trait NegativeRelativeTime: RelativeTime {
    /// Returns a human readable string representing the time difference,
    /// worded as a past interval.
    fn to_relative_in_past(&self) -> String;
}

/// The whole-second count a std duration holds: the duration is opaque here,
/// so the result of `as_secs` is known only by this name.
pub uninterp spec fn duration_secs(d: core::time::Duration) -> u64;

/// Relies on std's Duration::as_secs: the number of whole seconds the
/// duration holds, a pure read of the value alone, named `duration_secs`.
pub assume_specification[ core::time::Duration::as_secs ](d: &core::time::Duration) -> (r: u64)
    ensures
        r == duration_secs(*d),
;

impl RelativeTime for core::time::Duration {
    /// A std duration cannot be negative, so it is always read as a point in
    /// the future: "in {phrase}" for its whole-second count.
    fn to_relative(&self) -> (r: String)
        ensures
            r@ == in_phrase(duration_secs(*self) as int),
    {
        let secs = self.as_secs();
        future_phrase(secs)
    }
}

impl NegativeRelativeTime for core::time::Duration {
    /// The same magnitude, worded as a past interval: "{phrase} ago".
    fn to_relative_in_past(&self) -> (r: String)
        ensures
            r@ == ago_phrase(duration_secs(*self) as int),
    {
        let secs = self.as_secs();
        past_phrase(secs)
    }
}

#[verifier::external_type_specification]
#[verifier::external_body]
pub struct ExTimeDelta(chrono::TimeDelta);

/// The signed whole-second count a chrono delta holds: the delta is opaque
/// here, so the result of `num_seconds` is known only by this name.
pub uninterp spec fn delta_secs(d: chrono::TimeDelta) -> i64;

/// Relies on chrono's TimeDelta::num_seconds: the number of whole seconds the
/// delta holds, truncated toward zero, a pure read of the value alone, named
/// `delta_secs`.
pub assume_specification[ chrono::TimeDelta::num_seconds ](d: &chrono::TimeDelta) -> (r: i64)
    ensures
        r == delta_secs(*d),
;

impl RelativeTime for chrono::TimeDelta {
    /// A chrono delta carries its own sign: strictly negative deltas are
    /// phrased "{phrase} ago", the rest "in {phrase}".
    fn to_relative(&self) -> (r: String)
        ensures
            r@ == signed_phrase(delta_secs(*self) as int),
    {
        let secs = self.num_seconds();
        signed_relative_time(secs)
    }
}

} // verus!
