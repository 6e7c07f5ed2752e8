//! Circle-against-circle overlap tests.
use vstd::prelude::*;

use crate::circle::BlueCircle;
use crate::player::Player;

verus! {

/// Square of the distance between `(ax, ay)` and `(bx, by)`.
pub open spec fn dist_sq(ax: int, ay: int, bx: int, by: int) -> int {
    (ax - bx) * (ax - bx) + (ay - by) * (ay - by)
}

/// Whether two circles overlap: the distance between their centres is less
/// than the sum of their radii. Both sides are compared squared, which is
/// exact for whole numbers and needs no square root.
pub open spec fn overlap_spec(ax: int, ay: int, ar: int, bx: int, by: int, br: int) -> bool {
    0 < ar + br && dist_sq(ax, ay, bx, by) < (ar + br) * (ar + br)
}

/// Whether the player and a moving circle overlap.
pub open spec fn hits_spec(p: Player, c: BlueCircle) -> bool {
    overlap_spec(p.x as int, p.y as int, p.radius as int, c.x as int, c.y as int, c.radius as int)
}

/// Squares of 33-bit values fit with room to spare in 128 bits.
proof fn lemma_square_bounds(d: int)
    requires
        -0x1_0000_0000 <= d <= 0x1_0000_0000,
    ensures
        0 <= d * d <= 0x1_0000_0000_0000_0000,
{
    assert(0 <= d * d <= 0x1_0000_0000_0000_0000) by (nonlinear_arith)
        requires
            -0x1_0000_0000 <= d <= 0x1_0000_0000,
    ;
}

/// Whether the circle of radius `ar` at `(ax, ay)` overlaps the circle of
/// radius `br` at `(bx, by)`.
pub fn circles_overlap(ax: i32, ay: i32, ar: i32, bx: i32, by: i32, br: i32) -> (r: bool)
    ensures
        r == overlap_spec(ax as int, ay as int, ar as int, bx as int, by as int, br as int),
{
    let dx: i128 = ax as i128 - bx as i128;
    let dy: i128 = ay as i128 - by as i128;
    let reach: i128 = ar as i128 + br as i128;
    proof {
        lemma_square_bounds(dx as int);
        lemma_square_bounds(dy as int);
        lemma_square_bounds(reach as int);
    }
    0 < reach && dx * dx + dy * dy < reach * reach
}

/// Overlap does not depend on which circle comes first.
pub proof fn lemma_overlap_symmetric(ax: int, ay: int, ar: int, bx: int, by: int, br: int)
    ensures
        overlap_spec(ax, ay, ar, bx, by, br) == overlap_spec(bx, by, br, ax, ay, ar),
{
    assert((ax - bx) * (ax - bx) == (bx - ax) * (bx - ax)) by (nonlinear_arith);
    assert((ay - by) * (ay - by) == (by - ay) * (by - ay)) by (nonlinear_arith);
}

impl BlueCircle {
    /// Whether this circle overlaps the player.
    pub fn hits(&self, p: &Player) -> (r: bool)
        ensures
            r == hits_spec(*p, *self),
    {
        circles_overlap(p.x, p.y, p.radius, self.x, self.y, self.radius)
    }
}

} // verus!
