//! Bodies, the entities that the simulation moves.

use vstd::prelude::*;
use crate::tuning::{bounded, RANGE, TICK_RANGE};

verus! {

/// A pair of fixed-point coordinates.
#[derive(Clone, Copy, Debug, PartialEq, Eq)]
pub struct Vec2 {
    pub x: i64,
    pub y: i64,
}

/// The mathematical value of a `Vec2`.
pub struct Vector {
    pub x: int,
    pub y: int,
}

impl View for Vec2 {
    type V = Vector;

    open spec fn view(&self) -> Vector {
        Vector { x: self.x as int, y: self.y as int }
    }
}

impl Vec2 {
    /// Builds a vector from its two raw coordinates.
    pub fn new(x: i64, y: i64) -> (v: Vec2)
        ensures
            v.x == x,
            v.y == y,
    {
        Vec2 { x, y }
    }

    /// The vector with both coordinates zero.
    pub fn zero() -> (v: Vec2)
        ensures
            v.x == 0,
            v.y == 0,
    {
        Vec2 { x: 0, y: 0 }
    }
}

/// A simulated entity with an axis-aligned bounding box.
#[derive(Clone, Copy, Debug, PartialEq, Eq)]
pub struct Body {
    /// Centre of the bounding box.
    pub position: Vec2,
    /// Displacement per second.
    pub velocity: Vec2,
    /// Half of the bounding box's width and height.
    pub half_extent: Vec2,
    /// Whether gravity pulls on this body.
    pub affected_by_gravity: bool,
    /// Whether the last boundary pass put this body on the floor.
    pub grounded: bool,
}

/// The mathematical value of a `Body`.
pub struct BodyState {
    pub position: Vector,
    pub velocity: Vector,
    pub half_extent: Vector,
    pub affected_by_gravity: bool,
    pub grounded: bool,
}

impl View for Body {
    type V = BodyState;

    open spec fn view(&self) -> BodyState {
        BodyState {
            position: self.position@,
            velocity: self.velocity@,
            half_extent: self.half_extent@,
            affected_by_gravity: self.affected_by_gravity,
            grounded: self.grounded,
        }
    }
}

impl BodyState {
    /// Whether the half extents are not negative and every magnitude is at
    /// most `limit`.
    pub open spec fn within(self, limit: int) -> bool {
        &&& bounded(self.position.x, limit)
        &&& bounded(self.position.y, limit)
        &&& bounded(self.velocity.x, limit)
        &&& bounded(self.velocity.y, limit)
        &&& 0 <= self.half_extent.x <= limit
        &&& 0 <= self.half_extent.y <= limit
    }

    /// The y coordinate of the lower edge of the bounding box.
    pub open spec fn bottom(self) -> int {
        self.position.y - self.half_extent.y
    }

    /// The x coordinate of the left edge of the bounding box.
    pub open spec fn left(self) -> int {
        self.position.x - self.half_extent.x
    }

    /// The x coordinate of the right edge of the bounding box.
    pub open spec fn right(self) -> int {
        self.position.x + self.half_extent.x
    }
}

impl Body {
    /// Whether every stage accepts this body.
    pub open spec fn wf(&self) -> bool {
        self@.within(RANGE as int)
    }

    /// Whether a whole tick accepts this body.
    pub open spec fn ready(&self) -> bool {
        self@.within(TICK_RANGE as int)
    }

    /// A body at rest in the air: zero velocity, not grounded.
    pub fn new(position: Vec2, half_extent: Vec2, affected_by_gravity: bool) -> (body: Body)
        ensures
            body.position == position,
            body.velocity@ == (Vector { x: 0, y: 0 }),
            body.half_extent == half_extent,
            body.affected_by_gravity == affected_by_gravity,
            !body.grounded,
    {
        Body {
            position,
            velocity: Vec2 { x: 0, y: 0 },
            half_extent,
            affected_by_gravity,
            grounded: false,
        }
    }

    /// Tells whether every stage accepts this body.
    pub fn is_valid(&self) -> (ok: bool)
        ensures
            ok == self.wf(),
    {
        in_range(self.position.x, RANGE) && in_range(self.position.y, RANGE)
            && in_range(self.velocity.x, RANGE) && in_range(self.velocity.y, RANGE)
            && 0 <= self.half_extent.x && self.half_extent.x <= RANGE
            && 0 <= self.half_extent.y && self.half_extent.y <= RANGE
    }

    /// Tells whether a whole tick accepts this body.
    pub fn is_ready(&self) -> (ok: bool)
        ensures
            ok == self.ready(),
    {
        in_range(self.position.x, TICK_RANGE) && in_range(self.position.y, TICK_RANGE)
            && in_range(self.velocity.x, TICK_RANGE) && in_range(self.velocity.y, TICK_RANGE)
            && 0 <= self.half_extent.x && self.half_extent.x <= TICK_RANGE
            && 0 <= self.half_extent.y && self.half_extent.y <= TICK_RANGE
    }
}

/// Tells whether `value` lies within `limit` of zero.
pub fn in_range(value: i64, limit: i64) -> (ok: bool)
    requires
        0 <= limit,
    ensures
        ok == bounded(value as int, limit as int),
{
    -limit <= value && value <= limit
}

} // verus!
