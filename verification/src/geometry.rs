//! Plane vectors and the scalar clamp shared by both paddle controllers.

use vstd::prelude::*;

verus! {

use crate::state::{WinSize, COORD_MAX};

/// A point or velocity in the playfield, in subunits.
#[derive(Clone, Copy, Debug, PartialEq, Eq, Structural)]
pub struct Vec2 {
    pub x: i64,
    pub y: i64,
}

/// The value `y` pulled back into the band the playfield leaves for a body
/// of height `offset`: at most `h / 2 - offset / 2` and at least its negation.
pub open spec fn clamped(h: int, y: int, offset: int) -> int {
    let hi = h / 2 - offset / 2;
    if y > hi {
        hi
    } else if y < -hi {
        -hi
    } else {
        y
    }
}

/// Clamp a vertical position to the playfield, leaving `offset / 2` of room
/// above and below for the body centred there.
pub fn clamp(win: &WinSize, y: &mut i64, offset: i64)
    requires
        0 <= win.h <= COORD_MAX,
        0 <= offset <= COORD_MAX,
    ensures
        *final(y) == clamped(win.h as int, *old(y) as int, offset as int),
{
    let hi = win.h / 2 - offset / 2;
    if *y > hi {
        *y = hi;
    } else if *y < -hi {
        *y = -hi;
    }
}

} // verus!
