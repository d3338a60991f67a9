//! Tuning parameters and machine limits, all in raw fixed-point units.

use vstd::prelude::*;

verus! {

/// Share of the gap to the target speed that one tick closes (0.2).
pub const ACCELERATION: i64 = 200;

/// Horizontal speed sought per second of tick time (40000).
pub const PEAK_SPEED: i64 = 40_000_000;

/// Factor applied to horizontal velocity every tick (0.99).
pub const DRAG: i64 = 990;

/// Downward acceleration of gravity-affected bodies (2000 per second).
pub const GRAVITY: i64 = 2_000_000;

/// Upward velocity added by a jump (1000).
pub const JUMP_IMPULSE: i64 = 1_000_000;

/// Longest tick that the stages accept (1000 seconds).
pub const MAX_DT: i64 = 1_000_000;

/// Largest magnitude of a coordinate, a velocity component or a plane that
/// the stages accept.
pub const RANGE: i64 = 1_000_000_000_000_000;

/// Largest magnitude from which a whole tick stays within `RANGE`.
pub const TICK_RANGE: i64 = 100_000_000_000;

/// Whether `dt` is a tick length that the stages accept.
pub open spec fn valid_dt(dt: int) -> bool {
    0 <= dt <= MAX_DT
}

/// Whether a raw value lies within `limit` of zero.
pub open spec fn bounded(value: int, limit: int) -> bool {
    -limit <= value <= limit
}

} // verus!
