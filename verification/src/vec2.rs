//! A two-dimensional vector in thousandths of a unit.

use vstd::prelude::*;

verus! {

/// A 2D point or direction, both coordinates in thousandths of a unit.
/// The vertical axis grows downward, as on the output surface.
#[derive(Clone, Copy, Debug, PartialEq, Eq, Structural)]
pub struct Vec2Milli {
    pub x: i64,
    pub y: i64,
}

impl Vec2Milli {
    /// Builds a vector from its two coordinates.
    pub fn new(x: i64, y: i64) -> (v: Vec2Milli)
        ensures
            v.x == x,
            v.y == y,
    {
        Vec2Milli { x, y }
    }
}

} // verus!
