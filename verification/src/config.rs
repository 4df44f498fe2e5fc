use vstd::prelude::*;

verus! {

// Fixed-point units used throughout the simulation.
//
// Distances are measured in centiunits (one hundredth of a world unit) and
// times in centiseconds (one hundredth of a second).  A velocity is stored in
// world units per second, which is numerically the same as centiunits per
// centisecond, so one integration step is the exact product `v * dt`.
// Gravity is stored in velocity units per centisecond: a gravity of 18 lowers
// a velocity by 1800 units per second over a full second.

/// Half the screen width (960 world units).
pub const HALF_SCREEN_WIDTH: i64 = 96_000;

/// Half the screen height (640 world units).
pub const HALF_SCREEN_HEIGHT: i64 = 64_000;

/// Rendered size of the player sprite (192 world units).
pub const PLAYER_SIZE: i64 = 19_200;

/// The player may not rise above this height; crossing it bounces them back.
pub const CEILING_Y: i64 = HALF_SCREEN_HEIGHT - PLAYER_SIZE;

/// Vertical velocity given to the player when they bump the ceiling.
pub const BOUNCE_VELOCITY: i64 = -3;

/// Margin past the left screen edge before an entity is deleted (300 units).
pub const OFFSCREEN_PADDING: i64 = 30_000;

/// Entities marked for offscreen deletion are destroyed once their x position
/// drops below this line.
pub const DELETION_X: i64 = -HALF_SCREEN_WIDTH - OFFSCREEN_PADDING;

/// Half extent of the player's (forgiving) collision box: 40% of the rendered
/// sprite, so 76.8 world units across.
pub const PLAYER_HITBOX_HALF: i64 = 3_840;

/// Half width of a score trigger volume (the full box is 10 units wide).
pub const SCORE_BOX_HALF_WIDTH: i64 = 500;

/// Half height of a score trigger volume (the full box spans the screen).
pub const SCORE_BOX_HALF_HEIGHT: i64 = 64_000;

/// Half width of an obstacle body (the rendered pipe is 192 units wide).
pub const PIPE_HALF_WIDTH: i64 = 9_600;

/// Half height of an obstacle body (the rendered pipe is 768 units tall).
pub const PIPE_HALF_HEIGHT: i64 = 38_400;

/// Vertical offset of each obstacle body from the pair's gap center.
pub const PIPE_OFFSET_Y: i64 = 38_400;

/// Horizontal offset pushing the spawn point fully past the right edge.
pub const PIPE_OFFSET_X: i64 = 9_600;

/// x position at which an obstacle pair is spawned.
pub const PIPE_SPAWN_X: i64 = HALF_SCREEN_WIDTH + PIPE_OFFSET_X;

/// x position of the score trigger: half a player size past the pair.
pub const SCORE_SPAWN_X: i64 = PIPE_SPAWN_X + 9_600;

/// Draw-order depth of obstacle bodies.
pub const PIPE_DEPTH: i64 = 300;

/// Draw-order depth of the player.
pub const PLAYER_DEPTH: i64 = 10_000;

/// Default vertical velocity of a jump (920 world units per second).
pub const JUMP_HEIGHT_DEFAULT: i64 = 920;

/// Default gravity (lowers velocity by 1800 units per second each second).
pub const GRAVITY_DEFAULT: i64 = 18;

/// Default leftward velocity of obstacles and score triggers.
pub const PIPE_SPEED: i64 = -700;

/// Random draws are integers in `[0, FRACTION_SCALE)`, standing for a uniform
/// fraction of the unit interval in thousandths.
pub const FRACTION_SCALE: i64 = 1000;

/// Centiunits per thousandth of half the screen height: converts a gap-center
/// fraction to world coordinates.
pub const CENTER_UNIT: i64 = 64;

/// Largest allowed magnitude of a gap center, in thousandths of half the
/// screen height: `(screen_height - obstacle_pair_gap_height) / screen_height`
/// with a 768 unit pair gap on a 1280 unit screen.
pub const CLAMP_RANGE: i64 = 400;

// Caps that keep every arithmetic step of a tick inside `i64`.  They are far
// beyond anything the game reaches and exist only as machine limits.

/// Largest time step accepted by a tick, in centiseconds.
pub const MAX_DT: i64 = 100_000;

/// Largest accepted gravity value.
pub const MAX_GRAVITY: i64 = 1_000_000;

/// Largest velocity magnitude accepted at the start of a tick.
pub const MAX_VELOCITY: i64 = 4_000_000_000;

/// Largest velocity magnitude after one gravity pass.
pub const MAX_VELOCITY_STEPPED: i64 = MAX_VELOCITY + MAX_GRAVITY * MAX_DT;

/// Largest coordinate magnitude accepted at the start of a tick.
pub const MAX_COORD: i64 = 4_000_000_000_000;

/// Largest coordinate magnitude after one integration pass.
pub const MAX_COORD_STEPPED: i64 = MAX_COORD + MAX_VELOCITY_STEPPED * MAX_DT;

/// Largest collision box half extent.
pub const MAX_EXTENT: i64 = 4_000_000_000_000;

/// Largest timer duration or elapsed time, in centiseconds.
pub const MAX_TIMER: i64 = 1_000_000_000;

/// Largest rotation angle magnitude in a rotator configuration, in
/// milliradians.
pub const MAX_ANGLE: i64 = 1_000_000;

/// A half turn (pi radians) in milliradians: the rotation of the upper
/// obstacle body, which renders upside down.
pub const HALF_TURN: i64 = 3_142;

} // verus!
