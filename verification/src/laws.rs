//! Laws of the simulation, stated over the mathematical model of each stage.

use vstd::prelude::*;
use crate::body::BodyState;
use crate::boundary::{
    after_boundaries,
    contained,
    fits_between_walls,
    floor_test,
    left_wall_test,
    right_wall_test,
};
use crate::bounds::Planes;
use crate::input::{after_input, direction, steered, InputState};
use crate::tick::after_tick;
use crate::tuning::JUMP_IMPULSE;

verus! {

/// After the boundary stage no body reaches below the floor, a grounded body
/// stands exactly on it, and a body that fits between the walls lies between
/// them.
pub proof fn boundaries_contain(s: BodyState, planes: Planes)
    ensures
        after_boundaries(s, planes).bottom() >= planes.floor,
        after_boundaries(s, planes).grounded <==> s.bottom() < planes.floor,
        after_boundaries(s, planes).grounded ==> after_boundaries(s, planes).bottom()
            == planes.floor,
        fits_between_walls(s, planes) ==> contained(after_boundaries(s, planes), planes),
{
}

/// After a whole tick no body reaches below the floor, a grounded body
/// stands exactly on it, and a body that fits between the walls lies between
/// them.
pub proof fn tick_contains(
    s: BodyState,
    is_player: bool,
    input: InputState,
    dt: int,
    planes: Planes,
)
    ensures
        after_tick(s, is_player, input, dt, planes).bottom() >= planes.floor,
        after_tick(s, is_player, input, dt, planes).grounded ==> after_tick(
            s,
            is_player,
            input,
            dt,
            planes,
        ).bottom() == planes.floor,
        fits_between_walls(s, planes) ==> contained(
            after_tick(s, is_player, input, dt, planes),
            planes,
        ),
{
}

/// The boundary stage does not move a body that is already contained, nor
/// change its velocity; it is airborne afterwards.
pub proof fn boundaries_keep_contained(s: BodyState, planes: Planes)
    requires
        contained(s, planes),
    ensures
        after_boundaries(s, planes).position == s.position,
        after_boundaries(s, planes).velocity == s.velocity,
        !after_boundaries(s, planes).grounded,
{
}

/// The three boundary tests may run in any order on a body that fits
/// between the walls: all six orders give the same body.
pub proof fn boundary_tests_commute(s: BodyState, planes: Planes)
    requires
        fits_between_walls(s, planes),
    ensures
        ({
            let f = planes.floor;
            let l = planes.left_wall;
            let r = planes.right_wall;
            let expected = after_boundaries(s, planes);
            &&& left_wall_test(right_wall_test(floor_test(s, f), r), l) == expected
            &&& right_wall_test(floor_test(left_wall_test(s, l), f), r) == expected
            &&& left_wall_test(floor_test(right_wall_test(s, r), f), l) == expected
            &&& floor_test(right_wall_test(left_wall_test(s, l), r), f) == expected
            &&& floor_test(left_wall_test(right_wall_test(s, r), l), f) == expected
        }),
{
}

/// A body at rest on the floor and between the walls has the same position
/// and the same zero velocity after a tick of any length without input,
/// whether it is the player or not and whether gravity pulls on it or not.
pub proof fn rest_is_fixed_point(
    s: BodyState,
    is_player: bool,
    input: InputState,
    dt: int,
    planes: Planes,
)
    requires
        s.velocity.x == 0,
        s.velocity.y == 0,
        s.bottom() == planes.floor,
        planes.left_wall <= s.left(),
        s.right() <= planes.right_wall,
        !input.left,
        !input.right,
        !input.jump,
        0 <= dt,
    ensures
        after_tick(s, is_player, input, dt, planes).position == s.position,
        after_tick(s, is_player, input, dt, planes).velocity == s.velocity,
        after_tick(s, is_player, input, dt, planes).grounded == (s.affected_by_gravity && dt
            > 0),
{
    let fall = (-2000 * dt) * dt;
    assert(fall == -2000 * (dt * dt) && (dt > 0 ==> dt * dt >= 1) && (dt == 0 ==> dt * dt == 0))
        by (nonlinear_arith)
        requires
            fall == (-2000 * dt) * dt,
            0 <= dt,
    ;
    assert(0 * dt == 0);
}

/// A jump starts only from the floor: while the body is airborne, holding
/// the jump key changes nothing. The input stage gives the same body as
/// with the key released, with its vertical velocity untouched and still
/// airborne.
pub proof fn airborne_jump_is_ignored(s: BodyState, input: InputState, dt: int)
    requires
        !s.grounded,
    ensures
        after_input(s, input, dt) == after_input(
            s,
            InputState { left: input.left, right: input.right, jump: false },
            dt,
        ),
        after_input(s, input, dt).velocity.y == s.velocity.y,
        !after_input(s, input, dt).grounded,
{
}

/// A jump from the floor adds the jump impulse to the vertical velocity and
/// leaves the floor at once.
pub proof fn grounded_jump_lifts(s: BodyState, input: InputState, dt: int)
    requires
        s.grounded,
        input.jump,
    ensures
        after_input(s, input, dt).velocity.y == s.velocity.y + JUMP_IMPULSE,
        !after_input(s, input, dt).grounded,
{
}

/// When both direction keys are held, left wins.
pub proof fn left_wins_over_right(input: InputState)
    requires
        input.left,
    ensures
        direction(input) == -1,
{
}

/// Without a direction held, steering strictly shrinks a horizontal
/// velocity that is not zero, and never reverses it.
pub proof fn drag_slows(vx: int, dt: int)
    ensures
        vx > 0 ==> 0 <= steered(vx, 0, dt) < vx,
        vx < 0 ==> vx < steered(vx, 0, dt) <= 0,
        vx == 0 ==> steered(vx, 0, dt) == 0,
{
    assert(0 * dt == 0);
}

/// Without a direction held, a whole tick strictly shrinks a positive
/// horizontal velocity of the player, and never reverses it.
pub proof fn coasting_tick_slows(s: BodyState, input: InputState, dt: int, planes: Planes)
    requires
        !input.left,
        !input.right,
        s.velocity.x > 0,
    ensures
        0 <= after_tick(s, true, input, dt, planes).velocity.x < s.velocity.x,
{
    drag_slows(s.velocity.x, dt);
}

/// The horizontal velocity after `ticks` ticks of coasting: no direction
/// held and no wall met.
pub open spec fn coasted(vx: int, ticks: nat, dt: int) -> int
    decreases ticks,
{
    if ticks == 0 {
        vx
    } else {
        steered(coasted(vx, (ticks - 1) as nat, dt), 0, dt)
    }
}

/// Coasting brings a positive horizontal velocity toward zero by at least
/// one raw unit per tick, so that it is zero after as many ticks as its raw
/// value, and stays zero.
pub proof fn coasting_comes_to_rest(vx: int, ticks: nat, dt: int)
    requires
        vx >= 0,
    ensures
        0 <= coasted(vx, ticks, dt),
        coasted(vx, ticks, dt) <= vx - ticks || coasted(vx, ticks, dt) == 0,
    decreases ticks,
{
    if ticks > 0 {
        coasting_comes_to_rest(vx, (ticks - 1) as nat, dt);
        drag_slows(coasted(vx, (ticks - 1) as nat, dt), dt);
    }
}

} // verus!
