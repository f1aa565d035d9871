//! The wall layout of the flappy game.
//!
//! A wall is a column of cells at the right edge of the play field, 25
//! cells tall, with a nine-cell gap around a chosen centre for the dragon
//! to fly through. The host application draws a sprite 32 pixels tall per
//! cell; which cells hold a wall segment is decided here.
use vstd::prelude::*;

verus! {

/// Whether the wall column with its gap centred on `gap_y` holds a
/// segment at cell `y`.
pub open spec fn is_wall_cell(gap_y: int, y: int) -> bool {
    -12 <= y <= 12 && (y < gap_y - 4 || y > gap_y + 4)
}

/// The cells of a wall column with its gap centred on `gap_y`, from
/// bottom to top.
pub fn wall_cells(gap_y: i64) -> (cells: Vec<i64>)
    ensures
        forall|k: int| 0 <= k < cells@.len() ==> is_wall_cell(gap_y as int, #[trigger] cells@[k] as int),
        forall|y: i64| is_wall_cell(gap_y as int, y as int) ==> cells@.contains(y),
        forall|k: int, l: int| 0 <= k < l < cells@.len() ==> cells@[k] < cells@[l],
{
    let mut cells: Vec<i64> = Vec::new();
    let mut y: i64 = -12;
    while y <= 12
        invariant
            -12 <= y <= 13,
            forall|k: int| 0 <= k < cells@.len() ==> is_wall_cell(gap_y as int, #[trigger] cells@[k] as int)
                && cells@[k] < y,
            forall|z: i64| -12 <= z < y && is_wall_cell(gap_y as int, z as int)
                ==> cells@.contains(z),
            forall|k: int, l: int| 0 <= k < l < cells@.len() ==> cells@[k] < cells@[l],
        decreases 13 - y,
    {
        let ghost prev = cells@;
        if y + 4 < gap_y || y - 4 > gap_y {
            cells.push(y);
        }
        proof {
            assert forall|z: i64| -12 <= z < y + 1 && is_wall_cell(gap_y as int, z as int) implies
                cells@.contains(z) by {
                if z == y {
                    assert(cells@[cells@.len() - 1] == y);
                } else {
                    let i = choose|i: int| 0 <= i < prev.len() && prev[i] == z;
                    assert(cells@[i] == z);
                }
            }
        }
        y = y + 1;
    }
    cells
}

} // verus!
