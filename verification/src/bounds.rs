//! Axis-aligned rectangles in world space, and the two ways of asking
//! whether a point lies in one.
//!
//! Coordinates are whole numbers of half units: a stored value is twice the
//! world coordinate. The centre of a grid whose extent is odd then still
//! falls on a stored value, and no test below ever rounds.

use vstd::prelude::*;

verus! {

/// A point or an extent of the world, in half units.
#[derive(Clone, Copy, PartialEq, Eq, Debug, Hash, Structural)]
pub struct Vec2 {
    pub x: i128,
    pub y: i128,
}

impl Vec2 {
    /// The vector with the given half-unit coordinates.
    pub fn new(x: i128, y: i128) -> (v: Vec2)
        ensures
            v.x == x,
            v.y == y,
    {
        Vec2 { x, y }
    }

    /// The vector that stands for `(x, y)` in whole world units.
    pub fn from_units(x: i64, y: i64) -> (v: Vec2)
        ensures
            v.x == 2 * x,
            v.y == 2 * y,
    {
        Vec2 { x: 2 * (x as i128), y: 2 * (y as i128) }
    }

    /// The vector with both coordinates equal to `v` half units.
    pub fn splat(v: i128) -> (both: Vec2)
        ensures
            both.x == v,
            both.y == v,
    {
        Vec2 { x: v, y: v }
    }
}

/// Whether `c` lies on the stretch that starts at `low` and is `extent` long,
/// ends included.
pub open spec fn axis_contains(low: int, extent: int, c: int) -> bool {
    low <= c <= low + extent
}

/// Whether `c` lies on the stretch of length `extent` whose middle is
/// `centre`, ends included. Both sides are doubled, so that half of an odd
/// extent is never taken.
pub open spec fn axis_contains_centered(centre: int, extent: int, c: int) -> bool {
    2 * centre - extent <= 2 * c <= 2 * centre + extent
}

/// Whether `c` lies strictly inside the stretch of length `extent` whose
/// middle is `centre`.
pub open spec fn axis_strictly_inside(centre: int, extent: int, c: int) -> bool {
    2 * centre - extent < 2 * c < 2 * centre + extent
}

/// With an even extent, the centred stretch is the corner-anchored one moved
/// back by half the extent.
pub proof fn lemma_centered_is_shifted(centre: int, extent: int, c: int)
    requires
        extent % 2 == 0,
    ensures
        axis_contains_centered(centre, extent, c) == axis_contains(centre - extent / 2, extent, c),
{
}

fn within(low: i128, extent: i128, c: i128) -> (inside: bool)
    ensures
        inside == axis_contains(low as int, extent as int, c as int),
{
    if c < low {
        return false;
    }
    match c.checked_sub(low) {
        Some(distance) => distance <= extent,
        None => false,
    }
}

fn within_centered(centre: i128, extent: i128, c: i128) -> (inside: bool)
    ensures
        inside == axis_contains_centered(centre as int, extent as int, c as int),
{
    if extent < 0 {
        return false;
    }
    match c.checked_sub(centre) {
        Some(distance) => match distance.checked_mul(2) {
            Some(doubled) => -extent <= doubled && doubled <= extent,
            None => false,
        },
        None => false,
    }
}

/// A rectangle with sides along the axes: a position and a size, both in
/// half units. The position is the lowest corner for `in_bounds` and the
/// middle for `in_bounds_centered`.
#[derive(Clone, Copy, PartialEq, Eq, Debug, Hash, Structural)]
pub struct Bounds2 {
    pub position: Vec2,
    pub size: Vec2,
}

impl Bounds2 {
    /// The rectangle that starts at `position` holds `coords`, edges
    /// included.
    pub open spec fn contains(self, coords: Vec2) -> bool {
        &&& axis_contains(self.position.x as int, self.size.x as int, coords.x as int)
        &&& axis_contains(self.position.y as int, self.size.y as int, coords.y as int)
    }

    /// The rectangle whose middle is `position` holds `coords`, edges
    /// included.
    pub open spec fn contains_centered(self, coords: Vec2) -> bool {
        &&& axis_contains_centered(self.position.x as int, self.size.x as int, coords.x as int)
        &&& axis_contains_centered(self.position.y as int, self.size.y as int, coords.y as int)
    }

    /// `coords` lies inside the rectangle whose middle is `position`, and on
    /// none of its edges.
    pub open spec fn strictly_contains_centered(self, coords: Vec2) -> bool {
        &&& axis_strictly_inside(self.position.x as int, self.size.x as int, coords.x as int)
        &&& axis_strictly_inside(self.position.y as int, self.size.y as int, coords.y as int)
    }

    /// Tests `coords` against the rectangle that has `position` as its
    /// lowest corner.
    pub fn in_bounds(&self, coords: Vec2) -> (inside: bool)
        ensures
            inside == self.contains(coords),
    {
        within(self.position.x, self.size.x, coords.x) && within(
            self.position.y,
            self.size.y,
            coords.y,
        )
    }

    /// Tests `coords` against the rectangle that has `position` as its
    /// middle.
    pub fn in_bounds_centered(&self, coords: Vec2) -> (inside: bool)
        ensures
            inside == self.contains_centered(coords),
    {
        within_centered(self.position.x, self.size.x, coords.x) && within_centered(
            self.position.y,
            self.size.y,
            coords.y,
        )
    }
}

} // verus!
