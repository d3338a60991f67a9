//! The gravity stage: accelerates gravity-affected bodies downward.

use vstd::prelude::*;
use crate::body::{Body, BodyState, Vector};
use crate::fixed::{multiply, product};
use crate::tuning::{valid_dt, GRAVITY};

verus! {

/// The downward velocity that gravity adds during a tick of length `dt`.
pub open spec fn gravity_pull(dt: int) -> int {
    product(dt, GRAVITY as int)
}

/// A body after the gravity stage.
pub open spec fn after_gravity(s: BodyState, dt: int) -> BodyState {
    if s.affected_by_gravity {
        BodyState {
            velocity: Vector { x: s.velocity.x, y: s.velocity.y - gravity_pull(dt) },
            ..s
        }
    } else {
        s
    }
}

impl Body {
    /// Runs the gravity stage on this body.
    pub fn apply_gravity(&mut self, dt: i64)
        requires
            old(self).wf(),
            valid_dt(dt as int),
        ensures
            final(self)@ == after_gravity(old(self)@, dt as int),
    {
        if self.affected_by_gravity {
            self.velocity.y = self.velocity.y - multiply(dt, GRAVITY);
        }
    }
}

/// Runs the gravity stage on every body.
pub fn apply_gravity(bodies: &mut Vec<Body>, dt: i64)
    requires
        forall|i: int| 0 <= i < old(bodies).len() ==> old(bodies)@[i].wf(),
        valid_dt(dt as int),
    ensures
        final(bodies).len() == old(bodies).len(),
        forall|i: int|
            0 <= i < old(bodies).len() ==> final(bodies)@[i]@ == after_gravity(
                old(bodies)@[i]@,
                dt as int,
            ),
{
    let n: usize = bodies.len();
    let mut i: usize = 0;
    while i < n
        invariant
            i <= n,
            bodies.len() == n,
            n == old(bodies).len(),
            valid_dt(dt as int),
            forall|j: int| 0 <= j < n ==> old(bodies)@[j].wf(),
            forall|j: int| i <= j < n ==> bodies@[j] == old(bodies)@[j],
            forall|j: int|
                0 <= j < i ==> bodies@[j]@ == after_gravity(old(bodies)@[j]@, dt as int),
        decreases n - i,
    {
        bodies[i].apply_gravity(dt);
        i += 1;
    }
}

} // verus!
