//! The screen rectangle that every entity lives in.
use vstd::prelude::*;

verus! {

/// Width of the screen, in pixels.
pub const SCREEN_WIDTH: i32 = 800;

/// Height of the screen, in pixels.
pub const SCREEN_HEIGHT: i32 = 600;

/// Horizontal coordinate of the screen's centre, half of `SCREEN_WIDTH`.
pub const CENTER_X: i32 = 400;

/// Vertical coordinate of the screen's centre, half of `SCREEN_HEIGHT`.
pub const CENTER_Y: i32 = 300;

/// Where a coordinate lands when a circle of radius `r` is kept inside
/// `[0, bound]`: a centre too close to the low edge snaps to `r`, one too close
/// to the high edge snaps to `bound - r`, any other stays where it is.
pub open spec fn clamp_spec(p: int, r: int, bound: int) -> int {
    if p - r < 0 {
        r
    } else if p + r > bound {
        bound - r
    } else {
        p
    }
}

/// Whether a circle of radius `r` centred at `p` reaches past either edge of
/// `[0, bound]`.
pub open spec fn crosses_spec(p: int, r: int, bound: int) -> bool {
    p - r < 0 || p + r > bound
}

/// Keeps a circle of radius `r` centred at `p` inside `[0, bound]`.
pub fn clamp_axis(p: i64, r: i32, bound: i32) -> (res: i32)
    requires
        0 <= r,
        0 <= bound,
        i64::MIN + i32::MAX <= p <= i64::MAX - i32::MAX,
    ensures
        res == clamp_spec(p as int, r as int, bound as int),
{
    if p - (r as i64) < 0 {
        r
    } else if p + (r as i64) > bound as i64 {
        bound - r
    } else {
        p as i32
    }
}

} // verus!
