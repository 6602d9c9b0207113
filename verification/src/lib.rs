pub mod adapters;
pub mod digits;
pub mod laws;
pub mod phrase;

pub use adapters::NegativeRelativeTime;
pub use adapters::RelativeTime;
pub use phrase::english_relative_time;

use vstd::prelude::*;

verus! {

/// One of the six units a magnitude of seconds can be phrased in.
pub enum TimeUnit {
    Seconds,
    Minutes,
    Hours,
    Days,
    Months,
    Years,
}

/// Coarseness of a unit: seconds are finest, years are coarsest.
pub open spec fn unit_rank(u: TimeUnit) -> int {
    match u {
        TimeUnit::Seconds => 0,
        TimeUnit::Minutes => 1,
        TimeUnit::Hours => 2,
        TimeUnit::Days => 3,
        TimeUnit::Months => 4,
        TimeUnit::Years => 5,
    }
}

} // verus!
