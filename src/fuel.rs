//! How long a structure's fuel lasts.

use vstd::prelude::*;

verus! {

/// `units` items of `secs_each` seconds each, in seconds, where that fits in a `u64`.
pub open spec fn total_secs(units: u32, secs_each: u64) -> Option<u64> {
    if units * secs_each <= u64::MAX {
        Some((units * secs_each) as u64)
    } else {
        None
    }
}

fn lasts_for(units: u32, secs_each: u64) -> (r: Option<u64>)
    ensures
        r == total_secs(units, secs_each),
{
    (units as u64).checked_mul(secs_each)
}

/// A stack of raw element.
#[derive(Clone, Copy, PartialEq, Eq, Structural, Debug)]
pub struct RawElement {
    pub count: u32,
}

/// A stack of element shards.
#[derive(Clone, Copy, PartialEq, Eq, Structural, Debug)]
pub struct ElementShard {
    pub count: u32,
}

/// A stack of gasoline.
#[derive(Clone, Copy, PartialEq, Eq, Structural, Debug)]
pub struct Gasoline {
    pub count: u32,
}

impl RawElement {
    /// How many seconds the stack lasts when one item lasts `duration_secs`;
    /// `None` where that does not fit in a `u64`.
    pub fn lasts_until(&self, duration_secs: u64) -> (r: Option<u64>)
        ensures
            r == total_secs(self.count, duration_secs),
    {
        lasts_for(self.count, duration_secs)
    }
}

impl ElementShard {
    /// How many seconds the stack lasts when one item lasts `duration_secs`;
    /// `None` where that does not fit in a `u64`.
    pub fn lasts_until(&self, duration_secs: u64) -> (r: Option<u64>)
        ensures
            r == total_secs(self.count, duration_secs),
    {
        lasts_for(self.count, duration_secs)
    }
}

} // verus!
