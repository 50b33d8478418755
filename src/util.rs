//! Small shared value types.

use vstd::prelude::*;

verus! {

/// Milliseconds since the Unix epoch; negative before it.
#[derive(Clone, Copy, PartialEq, Eq, Structural, PartialOrd, Ord, Debug)]
pub struct DateTime {
    pub timestamp: i64,
}

impl From<i64> for DateTime {
    fn from(timestamp: i64) -> (r: DateTime) {
        DateTime { timestamp }
    }
}

impl vstd::std_specs::convert::FromSpecImpl<i64> for DateTime {
    open spec fn obeys_from_spec() -> bool {
        true
    }

    open spec fn from_spec(timestamp: i64) -> DateTime {
        DateTime { timestamp }
    }
}

impl DateTime {
    /// The time `millis` milliseconds after the epoch, where that fits in an `i64`.
    pub fn from_unix_millis(millis: u128) -> (r: Option<DateTime>)
        ensures
            millis <= i64::MAX ==> r == Some(DateTime { timestamp: millis as i64 }),
            millis > i64::MAX ==> r is None,
    {
        if millis <= i64::MAX as u128 {
            Some(DateTime { timestamp: millis as i64 })
        } else {
            None
        }
    }
}

} // verus!
