//! The static planes that enclose the level.

use vstd::prelude::*;
use crate::tuning::{bounded, RANGE};

verus! {

/// The floor and the two side walls.
#[derive(Clone, Copy, Debug, PartialEq, Eq)]
pub struct WorldBounds {
    /// The x coordinate of the left wall.
    pub left_wall: i64,
    /// The x coordinate of the right wall.
    pub right_wall: i64,
    /// The y coordinate of the floor.
    pub floor: i64,
}

/// The mathematical value of a `WorldBounds`.
pub struct Planes {
    pub left_wall: int,
    pub right_wall: int,
    pub floor: int,
}

impl View for WorldBounds {
    type V = Planes;

    open spec fn view(&self) -> Planes {
        Planes {
            left_wall: self.left_wall as int,
            right_wall: self.right_wall as int,
            floor: self.floor as int,
        }
    }
}

impl WorldBounds {
    /// Whether the boundary stage accepts these planes.
    pub open spec fn wf(&self) -> bool {
        &&& bounded(self.left_wall as int, RANGE as int)
        &&& bounded(self.right_wall as int, RANGE as int)
        &&& bounded(self.floor as int, RANGE as int)
    }

    /// Builds the bounds from the three planes.
    pub fn new(left_wall: i64, right_wall: i64, floor: i64) -> (bounds: WorldBounds)
        ensures
            bounds.left_wall == left_wall,
            bounds.right_wall == right_wall,
            bounds.floor == floor,
    {
        WorldBounds { left_wall, right_wall, floor }
    }

    /// Tells whether the boundary stage accepts these planes.
    pub fn is_valid(&self) -> (ok: bool)
        ensures
            ok == self.wf(),
    {
        -RANGE <= self.left_wall && self.left_wall <= RANGE
            && -RANGE <= self.right_wall && self.right_wall <= RANGE
            && -RANGE <= self.floor && self.floor <= RANGE
    }
}

} // verus!
