//! Fixed screen configuration, injected once at startup and immutable for
//! the whole run.

use vstd::prelude::*;

verus! {

/// Width of the tile grid, in cells.
pub const SCREEN_WIDTH: i32 = 80;

/// Height of the tile grid, in cells.
pub const SCREEN_HEIGHT: i32 = 50;

/// Total number of cells in the grid: `SCREEN_WIDTH * SCREEN_HEIGHT`.
pub const MAP_CELLS: usize = 80 * 50;

} // verus!
