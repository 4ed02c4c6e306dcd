//! How wide a meter of lit and dark cells reaches.
use vstd::prelude::*;

verus! {

/// One cell's side, in pixels.
pub const CELL: u32 = 8;

/// The gap between two cells.
pub const GAP: u32 = 3;

/// How wide a meter of `cells` reaches, so a layout can place what follows it: each cell and
/// the gap after it, less the last gap (`CELL + GAP` is 11 px), and nothing for no cells. The
/// count is taken as a `u32`.
pub fn width(cells: usize) -> (r: u32)
    requires
        cells != 0 ==> 1 <= (cells as u32) && 11 * (cells as u32) <= u32::MAX,
    ensures
        r == (if cells == 0 { 0 } else { 11 * (cells as u32) - 3 }),
{
    if cells == 0 {
        0
    } else {
        let n: u32 = cells as u32;
        (CELL + GAP) * n - GAP
    }
}

} // verus!
