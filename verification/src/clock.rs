//! The length of the pause between two samples, as a `Duration` of std.

use core::time::Duration;
use vstd::prelude::*;

verus! {

/// What a `Duration` holds: its length in nanoseconds.
pub uninterp spec fn duration_nanos(d: Duration) -> nat;

/// `Duration::from_secs` makes a duration of that many whole seconds.
pub assume_specification[ Duration::from_secs ](secs: u64) -> (d: Duration)
    ensures
        duration_nanos(d) == secs * 1_000_000_000,
;

} // verus!
