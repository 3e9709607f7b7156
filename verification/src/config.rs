//! The numbers the game is tuned with.

use vstd::prelude::*;

verus! {

/// Horizontal speed of the plane, in pixels per step.
pub const AIR_SPEED: i32 = 8;

/// Vertical distance the plane climbs or sinks in one step.
pub const CLIMB_STEP: i32 = 4;

/// Exclusive upper bound of the speed an enemy is given.
pub const ENEMY_MAX_AIR_SPEED: i16 = 20;

/// Number of enemies at which no further one is spawned.
pub const MAX_ENEMIES: i16 = 5;

/// Cells of the play field, across and down.
pub const GRID_WIDTH: i16 = 35;

pub const GRID_HEIGHT: i16 = 20;

/// Edge of one cell, in pixels.
pub const GRID_CELL_WIDTH: i16 = 34;

pub const GRID_CELL_HEIGHT: i16 = 34;

/// Width of the window, in pixels.
pub const SCREEN_WIDTH: i32 = 1190;

/// Height of the window, in pixels.
pub const SCREEN_HEIGHT: i32 = 680;

/// How often the game state advances.
pub const UPDATES_PER_SECOND: u64 = 120;

/// Whole milliseconds between two steps.
pub const MILLIS_PER_UPDATE: u64 = 8;

/// The same interval in nanoseconds, the unit of the timestamps.
pub const NANOS_PER_UPDATE: u64 = 8_000_000;

/// Distance the background scrolls in one step.
pub const SCROLL_STEP: i32 = 3;

/// Distance a bullet flies between two frames.
pub const BULLET_STEP: i32 = 15;

/// Fire balls in the pool.
pub const FIRE_BALLS: usize = 10;

/// Torpedoes in the pool, stored behind the fire balls.
pub const TORPEDOES: usize = 10;

/// Where the plane starts.
pub const PLANE_START_X: i32 = 400;

pub const PLANE_START_Y: i32 = 400;

/// Largest distance from zero that the plane's vertical coordinate takes.
/// Up to here every multiple of the climb step is a single-precision float
/// without rounding, so the renderer is handed exactly the value kept here.
pub const VERTICAL_LIMIT: i32 = 67_108_864;

/// The derived constants agree with the ones they are derived from: the
/// window is exactly as large as the grid of cells, the plane climbs at half
/// its air speed, and the interval between two steps is the whole number of
/// milliseconds that fits the update rate.
pub proof fn lemma_derived_constants()
    ensures
        SCREEN_WIDTH == GRID_WIDTH * GRID_CELL_WIDTH,
        SCREEN_HEIGHT == GRID_HEIGHT * GRID_CELL_HEIGHT,
        CLIMB_STEP == (AIR_SPEED as int) / 2,
        MILLIS_PER_UPDATE == 1000int / (UPDATES_PER_SECOND as int),
        NANOS_PER_UPDATE == MILLIS_PER_UPDATE * 1_000_000,
{
}

} // verus!
