//! The boundary stage: keeps every body above the floor and between the
//! walls.

use vstd::prelude::*;
use vstd::math::{max, min};
use crate::body::{Body, BodyState, Vector};
use crate::bounds::{Planes, WorldBounds};

verus! {

/// The floor test. A body whose lower edge is below the floor is lifted onto
/// it, loses any downward velocity and is grounded; any other body is
/// airborne.
pub open spec fn floor_test(s: BodyState, floor: int) -> BodyState {
    if s.bottom() < floor {
        BodyState {
            position: Vector { x: s.position.x, y: floor + s.half_extent.y },
            velocity: Vector { x: s.velocity.x, y: max(s.velocity.y, 0) },
            grounded: true,
            ..s
        }
    } else {
        BodyState { grounded: false, ..s }
    }
}

/// The left-wall test. A body whose left edge is beyond the wall is moved to
/// touch it, and its horizontal velocity is capped at zero.
pub open spec fn left_wall_test(s: BodyState, left_wall: int) -> BodyState {
    if s.left() < left_wall {
        BodyState {
            position: Vector { x: left_wall + s.half_extent.x, y: s.position.y },
            velocity: Vector { x: min(s.velocity.x, 0), y: s.velocity.y },
            ..s
        }
    } else {
        s
    }
}

/// The right-wall test. A body whose right edge is beyond the wall is moved
/// to touch it, and its horizontal velocity is raised to at least zero.
pub open spec fn right_wall_test(s: BodyState, right_wall: int) -> BodyState {
    if s.right() > right_wall {
        BodyState {
            position: Vector { x: right_wall - s.half_extent.x, y: s.position.y },
            velocity: Vector { x: max(s.velocity.x, 0), y: s.velocity.y },
            ..s
        }
    } else {
        s
    }
}

/// A body after the boundary stage: the floor test, then the left-wall test,
/// then the right-wall test.
pub open spec fn after_boundaries(s: BodyState, planes: Planes) -> BodyState {
    right_wall_test(left_wall_test(floor_test(s, planes.floor), planes.left_wall), planes.right_wall)
}

/// Whether a body is no wider than the corridor between the walls.
pub open spec fn fits_between_walls(s: BodyState, planes: Planes) -> bool {
    2 * s.half_extent.x <= planes.right_wall - planes.left_wall
}

/// Whether no edge of the bounding box lies beyond a plane.
pub open spec fn contained(s: BodyState, planes: Planes) -> bool {
    &&& s.bottom() >= planes.floor
    &&& s.left() >= planes.left_wall
    &&& s.right() <= planes.right_wall
}

impl Body {
    /// Runs the boundary stage on this body.
    pub fn resolve_boundaries(&mut self, bounds: &WorldBounds)
        requires
            old(self).wf(),
            bounds.wf(),
        ensures
            final(self)@ == after_boundaries(old(self)@, bounds@),
            final(self)@.bottom() >= bounds.floor,
            final(self).grounded <==> old(self)@.bottom() < bounds.floor,
            final(self).grounded ==> final(self)@.bottom() == bounds.floor,
            fits_between_walls(old(self)@, bounds@) ==> contained(final(self)@, bounds@),
    {
        if self.position.y - self.half_extent.y < bounds.floor {
            if self.velocity.y < 0 {
                self.velocity.y = 0;
            }
            self.position.y = bounds.floor + self.half_extent.y;
            self.grounded = true;
        } else {
            self.grounded = false;
        }
        if self.position.x - self.half_extent.x < bounds.left_wall {
            if self.velocity.x > 0 {
                self.velocity.x = 0;
            }
            self.position.x = bounds.left_wall + self.half_extent.x;
        }
        if self.position.x + self.half_extent.x > bounds.right_wall {
            if self.velocity.x < 0 {
                self.velocity.x = 0;
            }
            self.position.x = bounds.right_wall - self.half_extent.x;
        }
    }
}

/// Runs the boundary stage on every body.
pub fn resolve_boundaries(bodies: &mut Vec<Body>, bounds: &WorldBounds)
    requires
        forall|i: int| 0 <= i < old(bodies).len() ==> old(bodies)@[i].wf(),
        bounds.wf(),
    ensures
        final(bodies).len() == old(bodies).len(),
        forall|i: int|
            0 <= i < old(bodies).len() ==> final(bodies)@[i]@ == after_boundaries(
                old(bodies)@[i]@,
                bounds@,
            ),
        forall|i: int|
            0 <= i < old(bodies).len() ==> final(bodies)@[i]@.bottom() >= bounds.floor,
        forall|i: int|
            0 <= i < old(bodies).len() && fits_between_walls(old(bodies)@[i]@, bounds@)
                ==> contained(final(bodies)@[i]@, bounds@),
{
    let n: usize = bodies.len();
    let mut i: usize = 0;
    while i < n
        invariant
            i <= n,
            bodies.len() == n,
            n == old(bodies).len(),
            bounds.wf(),
            forall|j: int| 0 <= j < n ==> old(bodies)@[j].wf(),
            forall|j: int| i <= j < n ==> bodies@[j] == old(bodies)@[j],
            forall|j: int|
                0 <= j < i ==> bodies@[j]@ == after_boundaries(old(bodies)@[j]@, bounds@),
            forall|j: int| 0 <= j < i ==> bodies@[j]@.bottom() >= bounds.floor,
            forall|j: int|
                0 <= j < i && fits_between_walls(old(bodies)@[j]@, bounds@) ==> contained(
                    bodies@[j]@,
                    bounds@,
                ),
        decreases n - i,
    {
        bodies[i].resolve_boundaries(bounds);
        i += 1;
    }
}

} // verus!
