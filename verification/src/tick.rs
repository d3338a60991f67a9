//! One simulation tick: the four stages in their fixed order.

use vstd::prelude::*;
use crate::body::{Body, BodyState};
use crate::boundary::{after_boundaries, contained, fits_between_walls, resolve_boundaries};
use crate::bounds::{Planes, WorldBounds};
use crate::fixed::lemma_product_bounded;
use crate::gravity::{after_gravity, apply_gravity};
use crate::input::{after_input, InputState};
use crate::motion::{after_integration, integrate};
use crate::tuning::{valid_dt, MAX_DT, RANGE, TICK_RANGE};

verus! {

/// A body before gravity acts in a tick: the player after the input stage,
/// any other body as it was.
pub open spec fn after_input_stage(
    s: BodyState,
    is_player: bool,
    input: InputState,
    dt: int,
) -> BodyState {
    if is_player {
        after_input(s, input, dt)
    } else {
        s
    }
}

/// A body after one tick: input (the player only), gravity, integration,
/// boundaries.
pub open spec fn after_tick(
    s: BodyState,
    is_player: bool,
    input: InputState,
    dt: int,
    planes: Planes,
) -> BodyState {
    after_boundaries(
        after_integration(after_gravity(after_input_stage(s, is_player, input, dt), dt), dt),
        planes,
    )
}

/// Whether every stage of a tick before the boundary stage leaves the body
/// within the range that the next stage accepts.
pub open spec fn stays_in_range(s: BodyState, is_player: bool, input: InputState, dt: int) -> bool {
    let a = after_input_stage(s, is_player, input, dt);
    &&& a.within(RANGE as int)
    &&& after_gravity(a, dt).within(RANGE as int)
    &&& after_integration(after_gravity(a, dt), dt).within(RANGE as int)
}

/// From a body that is ready for a tick, every stage of the tick hands the
/// next stage a body that it accepts.
pub proof fn lemma_tick_stays_in_range(s: BodyState, is_player: bool, input: InputState, dt: int)
    requires
        s.within(TICK_RANGE as int),
        valid_dt(dt),
    ensures
        stays_in_range(s, is_player, input, dt),
{
    let a = after_input_stage(s, is_player, input, dt);
    let g = after_gravity(a, dt);
    let speed_limit: int = 2 * TICK_RANGE;
    assert(a.within(speed_limit));
    assert(g.within(speed_limit));
    lemma_product_bounded(g.velocity.x, dt, speed_limit, MAX_DT as int);
    lemma_product_bounded(g.velocity.y, dt, speed_limit, MAX_DT as int);
}

/// Advances every body by one tick. The body at index `player` reads the
/// input; every body then takes gravity, integration and the boundary test.
pub fn tick(
    bodies: &mut Vec<Body>,
    player: usize,
    input: InputState,
    dt: i64,
    bounds: &WorldBounds,
)
    requires
        player < old(bodies).len(),
        forall|i: int| 0 <= i < old(bodies).len() ==> old(bodies)@[i].ready(),
        valid_dt(dt as int),
        bounds.wf(),
    ensures
        final(bodies).len() == old(bodies).len(),
        forall|i: int|
            0 <= i < old(bodies).len() ==> final(bodies)@[i]@ == after_tick(
                old(bodies)@[i]@,
                i == player,
                input,
                dt as int,
                bounds@,
            ),
        forall|i: int|
            0 <= i < old(bodies).len() ==> final(bodies)@[i]@.bottom() >= bounds.floor,
        forall|i: int|
            0 <= i < old(bodies).len() && fits_between_walls(old(bodies)@[i]@, bounds@)
                ==> contained(final(bodies)@[i]@, bounds@),
{
    let ghost start = bodies@;
    assert forall|i: int| 0 <= i < start.len() implies stays_in_range(
        (#[trigger] start[i])@,
        i == player,
        input,
        dt as int,
    ) by {
        lemma_tick_stays_in_range(start[i]@, i == player, input, dt as int);
    }
    bodies[player].resolve_input(input, dt);
    assert forall|i: int| 0 <= i < start.len() implies bodies@[i]@ == after_input_stage(
        start[i]@,
        i == player,
        input,
        dt as int,
    ) by {}
    apply_gravity(bodies, dt);
    integrate(bodies, dt);
    resolve_boundaries(bodies, bounds);
}

} // verus!
