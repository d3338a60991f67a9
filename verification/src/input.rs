//! The input stage: turns held keys into the player's velocity.

use vstd::prelude::*;
use crate::body::{Body, BodyState, Vector};
use crate::fixed::{multiply, product};
use crate::tuning::{valid_dt, ACCELERATION, DRAG, JUMP_IMPULSE, PEAK_SPEED};

verus! {

/// The keys held during one tick.
#[derive(Clone, Copy, Debug, PartialEq, Eq)]
pub struct InputState {
    /// The key for moving left is held.
    pub left: bool,
    /// The key for moving right is held.
    pub right: bool,
    /// The key for jumping is held.
    pub jump: bool,
}

/// The horizontal direction asked for: -1, 0 or 1. Left is tested first, so
/// it wins when both keys are held.
pub open spec fn direction(input: InputState) -> int {
    if input.left {
        -1
    } else if input.right {
        1
    } else {
        0
    }
}

/// The horizontal speed that a tick of length `dt` steers toward.
pub open spec fn target_speed(direction: int, dt: int) -> int {
    product(direction * dt, PEAK_SPEED as int)
}

/// The horizontal velocity after steering: a share of the gap to the target
/// speed is closed, then drag is applied.
pub open spec fn steered(vx: int, direction: int, dt: int) -> int {
    let gap = target_speed(direction, dt) - vx;
    product(vx + product(gap, ACCELERATION as int), DRAG as int)
}

/// Whether a jump starts: the key is held and the body is on the floor.
pub open spec fn jump_triggers(s: BodyState, input: InputState) -> bool {
    input.jump && s.grounded
}

/// A body after the input stage.
pub open spec fn after_input(s: BodyState, input: InputState, dt: int) -> BodyState {
    BodyState {
        velocity: Vector {
            x: steered(s.velocity.x, direction(input), dt),
            y: if jump_triggers(s, input) {
                s.velocity.y + JUMP_IMPULSE
            } else {
                s.velocity.y
            },
        },
        grounded: s.grounded && !input.jump,
        ..s
    }
}

impl InputState {
    /// The state with no key held.
    pub fn none() -> (input: InputState)
        ensures
            !input.left,
            !input.right,
            !input.jump,
    {
        InputState { left: false, right: false, jump: false }
    }

    /// The horizontal direction asked for, left before right.
    pub fn direction(&self) -> (d: i64)
        ensures
            d == direction(*self),
    {
        if self.left {
            -1
        } else if self.right {
            1
        } else {
            0
        }
    }
}

impl Body {
    /// Runs the input stage on this body, the player.
    pub fn resolve_input(&mut self, input: InputState, dt: i64)
        requires
            old(self).wf(),
            valid_dt(dt as int),
        ensures
            final(self)@ == after_input(old(self)@, input, dt as int),
            !old(self).grounded ==> final(self).velocity.y == old(self).velocity.y
                && !final(self).grounded,
    {
        let d: i64 = input.direction();
        let signed_dt: i64 = if d < 0 {
            -dt
        } else if d > 0 {
            dt
        } else {
            0
        };
        assert(signed_dt == d * dt) by (nonlinear_arith)
            requires
                d == -1 || d == 0 || d == 1,
                signed_dt == (if d < 0 {
                    -dt
                } else if d > 0 {
                    dt as int
                } else {
                    0
                }),
        ;
        let target: i64 = multiply(signed_dt, PEAK_SPEED);
        let gap: i64 = target - self.velocity.x;
        let pushed: i64 = self.velocity.x + multiply(gap, ACCELERATION);
        self.velocity.x = multiply(pushed, DRAG);
        if input.jump && self.grounded {
            self.velocity.y = self.velocity.y + JUMP_IMPULSE;
            self.grounded = false;
        }
    }
}

} // verus!
