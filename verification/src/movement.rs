//! The keyboard movement rule of the top-down demo.
//!
//! The arrow keys move the sprite one cell at a time, a single direction
//! per frame: left wins over right, right over down, down over up. The
//! host application scales the cell to pixels.
use vstd::prelude::*;

verus! {

/// The cell delta for one frame of arrow-key input.
pub fn movement_delta(left: bool, right: bool, down: bool, up: bool) -> (d: (i8, i8))
    ensures
        d == (if left {
            (-1i8, 0i8)
        } else if right {
            (1i8, 0i8)
        } else if down {
            (0i8, -1i8)
        } else if up {
            (0i8, 1i8)
        } else {
            (0i8, 0i8)
        }),
{
    if left {
        (-1, 0)
    } else if right {
        (1, 0)
    } else if down {
        (0, -1)
    } else if up {
        (0, 1)
    } else {
        (0, 0)
    }
}

} // verus!
