//! Positions in the game world, as the engine reports them.

use vstd::prelude::*;

verus! {

/// The maps that positions can lie on.
#[derive(Clone, Copy, PartialEq, Eq, Structural, Debug)]
pub enum ArkMap {
    Island,
    ScorchedEarth,
    Center,
    Aberration,
}

/// How two positions relate to a range.
#[derive(Clone, Copy, PartialEq, Eq, Structural, Debug)]
pub enum WithinRange {
    Inside,
    Outside,
    /// Within range on the ground plane, but the height of one of them is unknown.
    Maybe,
}

/// A position in engine units; the height may be unknown.
#[derive(Clone, Copy, PartialEq, Eq, Structural, Debug)]
pub struct UE4Coordinates {
    pub x: i32,
    pub y: i32,
    pub z: Option<i32>,
    pub map: ArkMap,
}

/// The square of the difference of two coordinates.
pub open spec fn sq_diff(a: i32, b: i32) -> int {
    (b - a) * (b - a)
}

/// A distance whose square is `dist_sq`, rounded down, is at most `range`.
pub open spec fn in_reach(dist_sq: int, range: int) -> bool {
    0 <= range && dist_sq < (range + 1) * (range + 1)
}

impl ArkMap {
    /// The name of the map as players know it.
    pub fn name(&self) -> (r: &'static str)
        ensures
            *self == ArkMap::Island ==> r@ == "The Island"@,
            *self == ArkMap::ScorchedEarth ==> r@ == "Scorched Earth"@,
            *self == ArkMap::Center ==> r@ == "The Center"@,
            *self == ArkMap::Aberration ==> r@ == "Aberration"@,
    {
        proof {
            reveal_strlit("The Island");
            reveal_strlit("Scorched Earth");
            reveal_strlit("The Center");
            reveal_strlit("Aberration");
        }
        match self {
            ArkMap::Island => "The Island",
            ArkMap::ScorchedEarth => "Scorched Earth",
            ArkMap::Center => "The Center",
            ArkMap::Aberration => "Aberration",
        }
    }
}

impl UE4Coordinates {
    /// The square of the distance to `other` on the ground plane.
    pub open spec fn flat_dist_sq(&self, other: &Self) -> int {
        sq_diff(self.x, other.x) + sq_diff(self.y, other.y)
    }

    /// Whether `other` lies within `range` of `self`, the distance rounded down.
    /// Positions on different maps are never within range. Where either height is
    /// unknown, a ground-plane distance within range gives `Maybe`.
    pub open spec fn within_range_spec(&self, other: &Self, range: i32) -> WithinRange {
        if self.map != other.map {
            WithinRange::Outside
        } else if self.z.is_some() && other.z.is_some() {
            if in_reach(self.flat_dist_sq(other) + sq_diff(self.z.unwrap(), other.z.unwrap()), range as int) {
                WithinRange::Inside
            } else {
                WithinRange::Outside
            }
        } else if in_reach(self.flat_dist_sq(other), range as int) {
            WithinRange::Maybe
        } else {
            WithinRange::Outside
        }
    }

    /// How `other` lies relative to a range around `self`.
    pub fn within_range(&self, other: &Self, range: i32) -> (r: WithinRange)
        ensures
            r == self.within_range_spec(other, range),
    {
        if self.map != other.map {
            return WithinRange::Outside;
        }
        let flat = square_diff(self.x, other.x) + square_diff(self.y, other.y);
        let (sum, full) = match (self.z, other.z) {
            (Some(sz), Some(oz)) => (flat + square_diff(sz, oz), true),
            _ => (flat, false),
        };
        if reach_test(sum, range) {
            if full {
                WithinRange::Inside
            } else {
                WithinRange::Maybe
            }
        } else {
            WithinRange::Outside
        }
    }
}

fn square_diff(a: i32, b: i32) -> (r: i128)
    ensures
        r == sq_diff(a, b),
        0 <= r <= 0x1_0000_0000_0000_0000,
{
    let d: i128 = b as i128 - a as i128;
    assert(-0x1_0000_0000 <= d <= 0x1_0000_0000);
    assert(0 <= d * d <= 0x1_0000_0000_0000_0000) by (nonlinear_arith)
        requires
            -0x1_0000_0000 <= d <= 0x1_0000_0000,
    ;
    d * d
}

fn reach_test(dist_sq: i128, range: i32) -> (r: bool)
    requires
        0 <= dist_sq,
    ensures
        r == in_reach(dist_sq as int, range as int),
{
    if range < 0 {
        return false;
    }
    let next: i128 = range as i128 + 1;
    assert(0 <= next * next <= 0x1_0000_0000_0000_0000) by (nonlinear_arith)
        requires
            1 <= next <= 0x8000_0000,
    ;
    dist_sq < next * next
}

} // verus!
