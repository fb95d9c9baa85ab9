//! Geometry the renderer draws: six triangle corners per live cell.
//!
//! Coordinates are doubled integers: cell `(x, y)` covers the square from
//! `(x - 1/2, y - 1/2)` to `(x + 1/2, y + 1/2)`, so its corners are held
//! as `(2x ± 1, 2y ± 1)`. The unverified render layer halves them to
//! floating point and scales by two over the grid dimensions to reach
//! screen space.

use vstd::prelude::*;

verus! {

/// The six corners of one live cell's quad, as two triangles, in doubled
/// coordinates.
pub open spec fn cell_corners(x: int, y: int) -> Seq<(i64, i64)> {
    seq![
        ((2 * x - 1) as i64, (2 * y - 1) as i64),
        ((2 * x + 1) as i64, (2 * y - 1) as i64),
        ((2 * x - 1) as i64, (2 * y + 1) as i64),
        ((2 * x + 1) as i64, (2 * y - 1) as i64),
        ((2 * x - 1) as i64, (2 * y + 1) as i64),
        ((2 * x + 1) as i64, (2 * y + 1) as i64),
    ]
}

/// Corners of the live cells among the first `k` cells of a grid of width
/// `w`, in row-major order.
pub open spec fn batch_upto(cells: Seq<bool>, w: int, k: int) -> Seq<(i64, i64)>
    decreases k,
{
    if k <= 0 {
        Seq::empty()
    } else if cells[k - 1] {
        batch_upto(cells, w, k - 1) + cell_corners((k - 1) % w, (k - 1) / w)
    } else {
        batch_upto(cells, w, k - 1)
    }
}

/// The whole vertex batch of a grid: six corners for every live cell and
/// nothing else.
pub open spec fn batch_spec(cells: Seq<bool>, w: int) -> Seq<(i64, i64)> {
    batch_upto(cells, w, cells.len() as int)
}

} // verus!
