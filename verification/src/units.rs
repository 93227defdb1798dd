//! The fixed quantities of the world.

use vstd::prelude::*;

verus! {

/// Length units in one grid cell.
pub const CELL: i64 = 1_000_000;

/// Length of one marching step, and of one movement step: a tenth of a cell.
pub const STEP: i64 = 100_000;

/// Farthest distance at which a wall is seen.
pub const MAX_VIEW_DISTANCE: i64 = 15_000_000;

/// Number of steps that reach `MAX_VIEW_DISTANCE`.
pub const MAX_STEPS: i64 = 150;

/// Scale of the apparent wall height: a wall one cell away is this tall,
/// in the unit of the viewport.
pub const WALL_HEIGHT_AT_ONE_CELL: i64 = 6_000;

/// Brightest shade.
pub const MAX_SHADE: u8 = 255;

/// Degrees turned by one look to the left or to the right.
pub const LOOK_STEP: i32 = 2;

/// Field of view of a new player, in degrees.
pub const DEFAULT_FOV: u32 = 90;

} // verus!
