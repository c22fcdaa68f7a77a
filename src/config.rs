use vstd::prelude::*;

verus! {

/// Upper bound on a player's health.
pub const MAX_HEALTH: i8 = 3;

/// Width of every player's paddle (90 units).
pub const DEFAULT_PLAYER_WIDTH: i64 = 900;

/// Height of every player's paddle (70 units).
pub const DEFAULT_PLAYER_HEIGHT: i64 = 700;

/// Vertical position of the first player (360 units).
pub const DEFAULT_PLAYER_Y: i64 = 3600;

pub const DEFAULT_PLAYER_HEALTH: i8 = 3;

/// Horizontal distance a paddle moves per frame and held key (7 units).
pub const DEFAULT_PLAYER_SPEED: i64 = 70;

/// Radius of every ball (30 units).
pub const DEFAULT_BALL_RADIUS: i64 = 300;

/// Height at which balls appear (40 units).
pub const DEFAULT_BALL_Y: i64 = 400;

/// Per-frame fall at difficulty zero (2 units); each difficulty level adds a tenth of a unit.
pub const BASE_FALL_SPEED: i64 = 20;

/// Width of the window (800 units).
pub const SCREEN_WIDTH: i64 = 8000;

pub const LEFT_MAP_BORDER: i64 = 400;

pub const RIGHT_MAP_BORDER: i64 = SCREEN_WIDTH - LEFT_MAP_BORDER;

pub const GROUND_MAP_BORDER: i64 = 6000;

/// Extra distance kept between a freshly placed ball and each border (100 units).
pub const BALL_SPAWN_MARGIN: i64 = 1000;

/// Smallest horizontal position given to a freshly placed ball.
pub const MIN_SPAWN_X: i64 = LEFT_MAP_BORDER + DEFAULT_BALL_RADIUS + BALL_SPAWN_MARGIN;

/// Bound (exclusive) on the horizontal position given to a freshly placed ball.
pub const MAX_SPAWN_X: i64 = RIGHT_MAP_BORDER - DEFAULT_BALL_RADIUS - BALL_SPAWN_MARGIN;

/// Percent of freshly drawn balls that are normal.
pub const NORMAL_BALL_PERCENT: i64 = 70;

/// Percent of freshly drawn balls that are normal or poisonous.
pub const NORMAL_OR_POISONOUS_PERCENT: i64 = 87;

/// Time between two spawns at difficulty zero (50 seconds).
pub const SPAWN_BASE_INTERVAL: i64 = 50_000;

/// Time that each hundred difficulty levels take off the spawn interval (1 second).
pub const SPAWN_STEP: i64 = 1000;

/// Cap on the number of spawn steps taken off the base interval.
pub const SPAWN_MAX_STEPS: i64 = 40;

/// Difficulty gained at each spawn.
pub const SPAWN_DIFFICULTY_GAIN: i32 = 2;

/// Bound on the magnitude of any stored coordinate, far beyond the playfield,
/// which keeps every per-frame sum inside `i64`.
pub const COORD_LIMIT: i64 = 1_000_000_000_000;

/// Bound on any clock reading (about 35 000 years).
pub const TIME_LIMIT: i64 = 1_000_000_000_000_000;

/// A coordinate that the simulation can move without overflow.
pub open spec fn coord_fits(v: int) -> bool {
    -COORD_LIMIT <= v <= COORD_LIMIT
}

} // verus!
