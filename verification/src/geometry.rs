//! Fixed-point plane geometry.
//!
//! The game world is measured in hundredths of a world unit: a position of
//! `(0, -15000)` stands for the point `(0.0, -150.0)` of the continuous
//! plane. Every coordinate the logic reads or writes is an `i64` in this
//! scale, which keeps all rules exact and provable.

use vstd::prelude::*;

verus! {

/// How many fixed-point steps make one world unit.
pub const COORD_UNIT: i64 = 100;

/// Bound on every coordinate the world may hold, far beyond the reach of
/// the level geometry; it keeps offset arithmetic (feet positions, stomp
/// margins) free of overflow.
pub const COORD_LIMIT: i64 = 1_000_000_000_000;

/// A point or vector of the plane, in hundredths of a world unit.
#[derive(Clone, Copy, Debug, PartialEq, Eq, Structural)]
pub struct Vec2I {
    pub x: i64,
    pub y: i64,
}

impl Vec2I {
    /// Both coordinates lie within the world bound.
    pub open spec fn bounded(self) -> bool {
        -COORD_LIMIT <= self.x <= COORD_LIMIT && -COORD_LIMIT <= self.y <= COORD_LIMIT
    }

    pub fn new(x: i64, y: i64) -> (r: Vec2I)
        ensures
            r.x == x,
            r.y == y,
    {
        Vec2I { x, y }
    }
}

/// Magnitude of a mathematical integer.
pub open spec fn abs_val(x: int) -> int {
    if x >= 0 {
        x
    } else {
        -x
    }
}

} // verus!
