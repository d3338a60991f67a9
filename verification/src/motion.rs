//! The integration stage: moves every body along its velocity.

use vstd::prelude::*;
use crate::body::{Body, BodyState, Vector};
use crate::fixed::{lemma_product_bounded, multiply, product};
use crate::tuning::{valid_dt, MAX_DT, RANGE};

verus! {

/// A body after the integration stage. Only the position changes.
pub open spec fn after_integration(s: BodyState, dt: int) -> BodyState {
    BodyState {
        position: Vector {
            x: s.position.x + product(s.velocity.x, dt),
            y: s.position.y + product(s.velocity.y, dt),
        },
        ..s
    }
}

impl Body {
    /// Runs the integration stage on this body.
    pub fn integrate(&mut self, dt: i64)
        requires
            old(self).wf(),
            valid_dt(dt as int),
        ensures
            final(self)@ == after_integration(old(self)@, dt as int),
            final(self).velocity == old(self).velocity,
            final(self).grounded == old(self).grounded,
    {
        proof {
            lemma_product_bounded(self.velocity.x as int, dt as int, RANGE as int, MAX_DT as int);
            lemma_product_bounded(self.velocity.y as int, dt as int, RANGE as int, MAX_DT as int);
        }
        self.position.x = self.position.x + multiply(self.velocity.x, dt);
        self.position.y = self.position.y + multiply(self.velocity.y, dt);
    }
}

/// Runs the integration stage on every body.
pub fn integrate(bodies: &mut Vec<Body>, dt: i64)
    requires
        forall|i: int| 0 <= i < old(bodies).len() ==> old(bodies)@[i].wf(),
        valid_dt(dt as int),
    ensures
        final(bodies).len() == old(bodies).len(),
        forall|i: int|
            0 <= i < old(bodies).len() ==> final(bodies)@[i]@ == after_integration(
                old(bodies)@[i]@,
                dt as int,
            ),
{
    let n: usize = bodies.len();
    let mut i: usize = 0;
    while i < n
        invariant
            i <= n,
            bodies.len() == n,
            n == old(bodies).len(),
            valid_dt(dt as int),
            forall|j: int| 0 <= j < n ==> old(bodies)@[j].wf(),
            forall|j: int| i <= j < n ==> bodies@[j] == old(bodies)@[j],
            forall|j: int|
                0 <= j < i ==> bodies@[j]@ == after_integration(old(bodies)@[j]@, dt as int),
        decreases n - i,
    {
        bodies[i].integrate(dt);
        i += 1;
    }
}

} // verus!
