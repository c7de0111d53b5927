//! Coordinate translation between the window's bottom-left-origin space and
//! the UI renderer's top-left-origin space.

use vstd::prelude::*;

verus! {

/// The y-axis flip for a surface of height `h`: row `y` counted from one
/// edge becomes row `h - 1 - y` counted from the other.
pub open spec fn flip_y_spec(h: int, y: int) -> int {
    h - 1 - y
}

/// Translate a window-space y coordinate to UI-space for a surface of
/// height `h` (or back: the mapping is its own inverse).
pub fn flip_y(h: u32, y: i32) -> (r: i32)
    requires
        1 <= h <= i32::MAX,
        0 <= y,
    ensures
        r == flip_y_spec(h as int, y as int),
{
    (h as i32) - 1 - y
}

/// The y-axis flip is an involution: applying it twice gives back the
/// original coordinate.
pub proof fn lemma_flip_y_involution(h: int, y: int)
    ensures
        flip_y_spec(h, flip_y_spec(h, y)) == y,
{
}

} // verus!
