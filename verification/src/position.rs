//! Fixed-point 2D world coordinates shared by every entity kind.

use vstd::prelude::*;

verus! {

/// Absolute bound on every world coordinate the simulation handles.
/// Keeping all stored coordinates within this bound leaves per-tick sums of a
/// handful of coordinates far away from `i64` overflow.
pub const COORD_LIMIT: i64 = 1_000_000_000_000;

/// A 2D world position (or displacement) in fixed-point units.
#[derive(Clone, Copy, Debug, PartialEq, Eq, Structural)]
pub struct Position {
    pub x: i64,
    pub y: i64,
}

impl Position {
    /// Both coordinates lie within the simulation's working range.
    pub open spec fn in_bounds(self) -> bool {
        -COORD_LIMIT <= self.x <= COORD_LIMIT && -COORD_LIMIT <= self.y <= COORD_LIMIT
    }

    pub fn new(x: i64, y: i64) -> (r: Position)
        ensures
            r.x == x,
            r.y == y,
    {
        Position { x, y }
    }
}

} // verus!
