use platformer_core::body::{Body, Vec2};
use platformer_core::boundary::resolve_boundaries;
use platformer_core::bounds::WorldBounds;
use platformer_core::gravity::apply_gravity;
use platformer_core::input::InputState;
use platformer_core::motion::integrate;
use platformer_core::tuning::{GRAVITY, JUMP_IMPULSE};

fn level() -> WorldBounds {
    WorldBounds::new(-550_000, 550_000, -300_000)
}

fn player_at(x: i64, y: i64) -> Body {
    Body::new(Vec2::new(x, y), Vec2::new(5_000, 5_000), true)
}

fn held(left: bool, right: bool, jump: bool) -> InputState {
    InputState { left, right, jump }
}

#[test]
fn one_second_of_gravity_from_the_origin() {
    let mut bodies = vec![player_at(0, 0)];
    apply_gravity(&mut bodies, 1_000);
    assert_eq!(bodies[0].velocity, Vec2::new(0, -GRAVITY));
    assert_eq!(bodies[0].velocity.y, -2_000_000);
    assert_eq!(bodies[0].position, Vec2::new(0, 0));
    integrate(&mut bodies, 1_000);
    assert_eq!(bodies[0].position, Vec2::new(0, -2_000_000));
    assert_eq!(bodies[0].velocity, Vec2::new(0, -2_000_000));
    assert!(!bodies[0].grounded);
    resolve_boundaries(&mut bodies, &level());
    assert_eq!(bodies[0].position, Vec2::new(0, -295_000));
    assert_eq!(bodies[0].velocity, Vec2::new(0, 0));
    assert!(bodies[0].grounded);
}

#[test]
fn a_sixteenth_of_a_second_of_gravity() {
    let mut body = player_at(0, 0);
    body.apply_gravity(16);
    assert_eq!(body.velocity.y, -32_000);
    body.integrate(16);
    assert_eq!(body.position.y, -512);
    body.apply_gravity(16);
    body.integrate(16);
    assert_eq!(body.velocity.y, -64_000);
    assert_eq!(body.position.y, -1_536);
}

#[test]
fn left_wall_moves_the_body_back_inside() {
    let bounds = level();
    let mut body = player_at(bounds.left_wall - 1_000, 0);
    body.velocity = Vec2::new(-50_000, 0);
    body.resolve_boundaries(&bounds);
    assert_eq!(body.position.x, bounds.left_wall + body.half_extent.x);
    assert_eq!(body.position.x, -545_000);
    assert_eq!(body.velocity.x, -50_000);
    assert_eq!(body.position.y, 0);
}

#[test]
fn left_wall_caps_rightward_velocity_at_zero() {
    let bounds = level();
    let mut body = player_at(-551_000, 0);
    body.velocity = Vec2::new(50_000, 7_000);
    body.resolve_boundaries(&bounds);
    assert_eq!(body.position.x, -545_000);
    assert_eq!(body.velocity, Vec2::new(0, 7_000));
}

#[test]
fn right_wall_moves_the_body_back_inside() {
    let bounds = level();
    let mut body = player_at(548_000, 0);
    body.velocity = Vec2::new(-50_000, 0);
    body.resolve_boundaries(&bounds);
    assert_eq!(body.position.x, 545_000);
    assert_eq!(body.velocity.x, 0);

    let mut other = player_at(548_000, 0);
    other.velocity = Vec2::new(50_000, 0);
    other.resolve_boundaries(&bounds);
    assert_eq!(other.position.x, 545_000);
    assert_eq!(other.velocity.x, 50_000);
}

#[test]
fn touching_a_wall_is_not_crossing_it() {
    let bounds = level();
    let mut body = player_at(-545_000, 0);
    body.velocity = Vec2::new(30_000, 0);
    body.resolve_boundaries(&bounds);
    assert_eq!(body.position.x, -545_000);
    assert_eq!(body.velocity.x, 30_000);

    let mut other = player_at(545_000, 0);
    other.velocity = Vec2::new(-30_000, 0);
    other.resolve_boundaries(&bounds);
    assert_eq!(other.position.x, 545_000);
    assert_eq!(other.velocity.x, -30_000);
}

#[test]
fn floor_lifts_and_grounds_a_sunken_body() {
    let bounds = level();
    let mut body = player_at(0, -400_000);
    body.velocity = Vec2::new(12_000, -90_000);
    body.resolve_boundaries(&bounds);
    assert_eq!(body.position, Vec2::new(0, -295_000));
    assert_eq!(body.velocity, Vec2::new(12_000, 0));
    assert!(body.grounded);
}

#[test]
fn floor_keeps_upward_velocity() {
    let bounds = level();
    let mut body = player_at(0, -295_001);
    body.velocity = Vec2::new(0, 40_000);
    body.resolve_boundaries(&bounds);
    assert_eq!(body.position.y, -295_000);
    assert_eq!(body.velocity.y, 40_000);
    assert!(body.grounded);
}

#[test]
fn standing_exactly_on_the_floor_is_airborne() {
    let bounds = level();
    let mut body = player_at(0, -295_000);
    body.grounded = true;
    body.velocity = Vec2::new(0, -10_000);
    body.resolve_boundaries(&bounds);
    assert_eq!(body.position.y, -295_000);
    assert_eq!(body.velocity.y, -10_000);
    assert!(!body.grounded);
}

#[test]
fn grounded_is_derived_again_every_pass() {
    let bounds = level();
    let mut body = player_at(0, -300_000);
    body.resolve_boundaries(&bounds);
    assert!(body.grounded);
    body.resolve_boundaries(&bounds);
    assert!(!body.grounded);
    assert_eq!(body.position.y, -295_000);
}

#[test]
fn a_corner_takes_both_clamps() {
    let bounds = level();
    let mut body = player_at(-600_000, -600_000);
    body.velocity = Vec2::new(80_000, -80_000);
    body.resolve_boundaries(&bounds);
    assert_eq!(body.position, Vec2::new(-545_000, -295_000));
    assert_eq!(body.velocity, Vec2::new(0, 0));
    assert!(body.grounded);
}

#[test]
fn a_body_wider_than_the_corridor_ends_at_the_right_wall() {
    let bounds = WorldBounds::new(0, 5_000, 0);
    let mut body = Body::new(Vec2::new(-20_000, 50_000), Vec2::new(10_000, 1_000), false);
    body.velocity = Vec2::new(-3_000, 0);
    body.resolve_boundaries(&bounds);
    assert_eq!(body.position.x, -5_000);
    assert_eq!(body.velocity.x, 0);
    assert!(body.position.x - body.half_extent.x < bounds.left_wall);
}

#[test]
fn boundaries_hold_every_body_inside() {
    let bounds = level();
    let mut bodies = vec![
        player_at(-700_000, -700_000),
        player_at(700_000, 100_000),
        player_at(0, -295_000),
        player_at(123_456, -299_999),
        Body::new(Vec2::new(-549_000, 0), Vec2::new(550_000, 1_000), false),
    ];
    resolve_boundaries(&mut bodies, &bounds);
    assert_eq!(bodies.len(), 5);
    for body in bodies.iter() {
        assert!(body.position.y - body.half_extent.y >= bounds.floor);
        assert!(body.position.x - body.half_extent.x >= bounds.left_wall);
        assert!(body.position.x + body.half_extent.x <= bounds.right_wall);
    }
    assert_eq!(bodies[0].position, Vec2::new(-545_000, -295_000));
    assert_eq!(bodies[1].position, Vec2::new(545_000, 100_000));
    assert_eq!(bodies[2].position, Vec2::new(0, -295_000));
    assert_eq!(bodies[3].position, Vec2::new(123_456, -295_000));
    assert_eq!(bodies[4].position, Vec2::new(0, 0));
    assert!(bodies[0].grounded && bodies[3].grounded);
    assert!(!bodies[1].grounded && !bodies[2].grounded && !bodies[4].grounded);
}

#[test]
fn jump_from_the_floor() {
    let mut body = player_at(0, -295_000);
    body.grounded = true;
    body.resolve_input(held(false, false, true), 16);
    assert_eq!(body.velocity.y, JUMP_IMPULSE);
    assert_eq!(body.velocity.y, 1_000_000);
    assert!(!body.grounded);
    assert_eq!(body.position, Vec2::new(0, -295_000));
}

#[test]
fn jump_adds_to_the_vertical_velocity() {
    let mut body = player_at(0, -295_000);
    body.grounded = true;
    body.velocity = Vec2::new(0, -250_000);
    body.resolve_input(held(false, false, true), 16);
    assert_eq!(body.velocity.y, 750_000);
    assert!(!body.grounded);
}

#[test]
fn jump_in_the_air_does_nothing() {
    let mut jumping = player_at(0, 100_000);
    jumping.velocity = Vec2::new(70_000, -30_000);
    let mut coasting = jumping;
    jumping.resolve_input(held(false, true, true), 16);
    coasting.resolve_input(held(false, true, false), 16);
    assert_eq!(jumping.velocity.y, -30_000);
    assert!(!jumping.grounded);
    assert_eq!(jumping, coasting);
}

#[test]
fn staying_on_the_floor_without_jumping_keeps_grounded() {
    let mut body = player_at(0, -295_000);
    body.grounded = true;
    body.resolve_input(held(false, false, false), 16);
    assert!(body.grounded);
    assert_eq!(body.velocity, Vec2::new(0, 0));
}

#[test]
fn steering_right_from_rest() {
    let mut body = player_at(0, 0);
    body.resolve_input(held(false, true, false), 16);
    assert_eq!(body.velocity, Vec2::new(126_720, 0));
    body.resolve_input(held(false, true, false), 16);
    assert_eq!(body.velocity.x, 227_082);
}

#[test]
fn steering_left_mirrors_steering_right() {
    let mut body = player_at(0, 0);
    body.resolve_input(held(true, false, false), 16);
    assert_eq!(body.velocity, Vec2::new(-126_720, 0));
    body.resolve_input(held(true, false, false), 16);
    assert_eq!(body.velocity.x, -227_082);
}

#[test]
fn left_wins_when_both_directions_are_held() {
    let both = held(true, true, false);
    assert_eq!(both.direction(), -1);
    assert_eq!(held(false, true, false).direction(), 1);
    assert_eq!(held(true, false, false).direction(), -1);
    assert_eq!(InputState::none().direction(), 0);
    let mut body = player_at(0, 0);
    body.resolve_input(both, 16);
    assert_eq!(body.velocity.x, -126_720);
}

#[test]
fn drag_shrinks_a_coasting_velocity_every_tick() {
    let mut body = player_at(0, 0);
    body.velocity = Vec2::new(1_000, 0);
    body.resolve_input(InputState::none(), 16);
    assert_eq!(body.velocity.x, 792);
    body.resolve_input(InputState::none(), 16);
    assert_eq!(body.velocity.x, 627);
    let mut last = body.velocity.x;
    let mut ticks = 0;
    while last > 0 {
        body.resolve_input(InputState::none(), 16);
        assert!(body.velocity.x < last);
        assert!(body.velocity.x >= 0);
        last = body.velocity.x;
        ticks += 1;
    }
    assert_eq!(body.velocity.x, 0);
    assert!(ticks <= 627);
    body.resolve_input(InputState::none(), 16);
    assert_eq!(body.velocity.x, 0);
}

#[test]
fn drag_shrinks_a_leftward_velocity_too() {
    let mut body = player_at(0, 0);
    body.velocity = Vec2::new(-1_000, 0);
    body.resolve_input(InputState::none(), 16);
    assert_eq!(body.velocity.x, -792);
    body.velocity = Vec2::new(-1, 0);
    body.resolve_input(InputState::none(), 16);
    assert_eq!(body.velocity.x, 0);
    body.velocity = Vec2::new(1, 0);
    body.resolve_input(InputState::none(), 16);
    assert_eq!(body.velocity.x, 0);
}

#[test]
fn gravity_skips_bodies_that_it_does_not_affect() {
    let floating = Body::new(Vec2::new(10_000, 20_000), Vec2::new(1_000, 1_000), false);
    let mut bodies = vec![player_at(0, 0), floating, player_at(5_000, 5_000)];
    apply_gravity(&mut bodies, 500);
    assert_eq!(bodies[0].velocity, Vec2::new(0, -1_000_000));
    assert_eq!(bodies[1], floating);
    assert_eq!(bodies[2].velocity, Vec2::new(0, -1_000_000));
    assert_eq!(bodies[2].position, Vec2::new(5_000, 5_000));
}

#[test]
fn integration_moves_every_body_and_nothing_else() {
    let mut falling = player_at(1_000, 2_000);
    falling.velocity = Vec2::new(3_000, -4_500);
    falling.grounded = true;
    let mut floating = Body::new(Vec2::new(0, 0), Vec2::new(1_000, 1_000), false);
    floating.velocity = Vec2::new(-999, 999);
    let mut bodies = vec![falling, floating];
    integrate(&mut bodies, 500);
    assert_eq!(bodies[0].position, Vec2::new(2_500, -250));
    assert_eq!(bodies[0].velocity, Vec2::new(3_000, -4_500));
    assert!(bodies[0].grounded);
    assert_eq!(bodies[1].position, Vec2::new(-499, 499));
    assert_eq!(bodies[1].velocity, Vec2::new(-999, 999));
    assert!(!bodies[1].grounded);
    assert!(!bodies[1].affected_by_gravity);
}

#[test]
fn integration_may_carry_a_body_through_the_floor() {
    let mut body = player_at(0, -295_000);
    body.velocity = Vec2::new(0, -100_000);
    body.integrate(1_000);
    assert_eq!(body.position.y, -395_000);
}

#[test]
fn a_tick_of_no_length_changes_nothing_but_drag() {
    let mut body = player_at(7_000, 9_000);
    body.velocity = Vec2::new(1_000, 2_000);
    let before = body;
    body.apply_gravity(0);
    body.integrate(0);
    assert_eq!(body, before);
    body.resolve_input(held(false, true, false), 0);
    assert_eq!(body.velocity, Vec2::new(792, 2_000));
}

#[test]
fn stages_leave_empty_collections_empty() {
    let mut bodies: Vec<Body> = Vec::new();
    apply_gravity(&mut bodies, 16);
    integrate(&mut bodies, 16);
    resolve_boundaries(&mut bodies, &level());
    assert!(bodies.is_empty());
}
