//! The grid index: the bidirectional mapping between 2-D tile coordinates
//! and the linear, row-major storage index of the tile map.

use vstd::prelude::*;

use crate::constants::{MAP_CELLS, SCREEN_HEIGHT, SCREEN_WIDTH};

verus! {

/// The linear index of cell `(x, y)`: `y * width + x`, row-major.
pub open spec fn flat_index(x: int, y: int) -> int {
    y * (SCREEN_WIDTH as int) + x
}

/// The column a linear index falls in.
pub open spec fn col_of(idx: int) -> int {
    idx % (SCREEN_WIDTH as int)
}

/// The row a linear index falls in.
pub open spec fn row_of(idx: int) -> int {
    idx / (SCREEN_WIDTH as int)
}

/// Whether `(x, y)` names a cell of the grid.
pub open spec fn in_bounds(x: int, y: int) -> bool {
    0 <= x < SCREEN_WIDTH && 0 <= y < SCREEN_HEIGHT
}

/// Maps an in-bounds coordinate to its linear index. Out-of-bounds input is
/// a caller contract violation, excluded by the precondition.
pub fn xy_idx(x: i32, y: i32) -> (idx: usize)
    requires
        in_bounds(x as int, y as int),
    ensures
        idx == flat_index(x as int, y as int),
        idx < MAP_CELLS,
{
    (y as usize) * (SCREEN_WIDTH as usize) + (x as usize)
}

/// Maps a valid linear index back to its `(x, y)` coordinate: the exact
/// inverse of `xy_idx`.
pub fn idx_xy(idx: usize) -> (r: (i32, i32))
    requires
        idx < MAP_CELLS,
    ensures
        r.0 == col_of(idx as int),
        r.1 == row_of(idx as int),
        in_bounds(r.0 as int, r.1 as int),
{
    proof {
        vstd::arithmetic::div_mod::lemma_fundamental_div_mod(idx as int, SCREEN_WIDTH as int);
        vstd::arithmetic::div_mod::lemma_mod_bound(idx as int, SCREEN_WIDTH as int);
    }
    ((idx % (SCREEN_WIDTH as usize)) as i32, (idx / (SCREEN_WIDTH as usize)) as i32)
}

/// Round trip of the grid index: for every in-bounds coordinate, mapping to
/// the linear index and back gives the coordinate unchanged.
pub proof fn lemma_index_round_trip(x: int, y: int)
    requires
        in_bounds(x, y),
    ensures
        col_of(flat_index(x, y)) == x,
        row_of(flat_index(x, y)) == y,
        0 <= flat_index(x, y) < MAP_CELLS,
{
    vstd::arithmetic::div_mod::lemma_fundamental_div_mod_converse(
        flat_index(x, y),
        SCREEN_WIDTH as int,
        y,
        x,
    );
}

/// Round trip in the other direction: every valid linear index is the index
/// of the cell it names.
pub proof fn lemma_flat_of_coord(idx: int)
    requires
        0 <= idx < MAP_CELLS,
    ensures
        flat_index(col_of(idx), row_of(idx)) == idx,
        in_bounds(col_of(idx), row_of(idx)),
{
    vstd::arithmetic::div_mod::lemma_fundamental_div_mod(idx, SCREEN_WIDTH as int);
    vstd::arithmetic::div_mod::lemma_mod_bound(idx, SCREEN_WIDTH as int);
}

} // verus!
