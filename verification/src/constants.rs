use vstd::prelude::*;

verus! {

/// Number of rows of the visible board.
pub const ROWS: usize = 24;

/// Number of columns of the visible board.
pub const COLUMNS: usize = 10;

/// Continuous coordinates are fixed-point numbers counted in subunits,
/// with this many subunits per grid cell.  One tick lasts 1/60 s and
/// falling speeds are multiples of half a cell per second, so every
/// coordinate the simulation produces is a whole number of subunits.
pub const SUBUNITS: i64 = 120;

/// Half of a grid cell, used when rounding to the nearest cell.
pub const HALF_CELL: i64 = 60;

/// Continuous coordinates are kept within this range so that the
/// arithmetic on them cannot overflow an `i64`.
pub const COORD_LIMIT: i64 = 2_000_000_000_000;

/// Upper bound on the downward speed of a piece, in subunits per frame.
pub const VEL_LIMIT: i64 = 8_000_000_000;

/// Upper bound on how far gravity may carry a piece in one tick
/// (velocity times elapsed frames), in subunits.
pub const MAX_GRAVITY: i64 = 1_000_000_000_000;

/// Time is counted in units of 1/120 s; a frame (one tick) lasts 1/60 s.
pub const TIME_UNITS_PER_FRAME: u64 = 2;

/// Delay between discrete left/right/down steps: 9/120 s = 75 ms.
pub const MOVEMENT_DELAY: u64 = 9;

/// Delay between rotations or hard drops: 24/120 s = 200 ms.
pub const INPUT_DELAY: u64 = 24;

/// Base falling speed: 2 subunits per frame = 1 cell per second.
pub const BASE_SPEED: i64 = 2;

/// Additional speed per level: 1 subunit per frame = 0.5 cells per second.
pub const SPEED_PER_LEVEL: i64 = 1;

} // verus!
