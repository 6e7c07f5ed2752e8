//! The controlled entity: a circle moved by the keyboard and kept on screen.
use vstd::prelude::*;

use crate::screen::{clamp_axis, clamp_spec, SCREEN_HEIGHT, SCREEN_WIDTH};

verus! {

/// The circle the user steers.
#[derive(Clone, Copy, Debug, PartialEq, Eq)]
pub struct Player {
    pub x: i32,
    pub y: i32,
    pub radius: i32,
    pub speed: i32,
}

/// A step of `d` times `speed`, both 32-bit, is far inside the 64-bit range.
proof fn lemma_step_bounds(d: int, speed: int)
    requires
        i32::MIN <= d <= i32::MAX,
        i32::MIN <= speed <= i32::MAX,
    ensures
        -0x4000_0000_0000_0000 <= d * speed <= 0x4000_0000_0000_0000,
{
    assert(-0x4000_0000_0000_0000 <= d * speed <= 0x4000_0000_0000_0000) by (nonlinear_arith)
        requires
            i32::MIN <= d <= i32::MAX,
            i32::MIN <= speed <= i32::MAX,
    ;
}

impl Player {
    /// The player that `new(x, y)` makes.
    pub open spec fn new_spec(x: i32, y: i32) -> Player {
        Player { x: x, y: y, radius: 10, speed: 5 }
    }

    /// A player has a radius that is not negative.
    pub open spec fn wf(&self) -> bool {
        0 <= self.radius
    }

    /// The position after moving by `(dx, dy)` steps of `speed` pixels and
    /// clamping to the screen.
    pub open spec fn moved(&self, dx: int, dy: int) -> (int, int) {
        (
            clamp_spec(self.x + dx * self.speed, self.radius as int, SCREEN_WIDTH as int),
            clamp_spec(self.y + dy * self.speed, self.radius as int, SCREEN_HEIGHT as int),
        )
    }

    /// A player centred at `(x, y)` with a radius of 10 and a speed of 5.
    pub fn new(x: i32, y: i32) -> (p: Player)
        ensures
            p.x == x,
            p.y == y,
            p.radius == 10,
            p.speed == 5,
            p == Player::new_spec(x, y),
            p.wf(),
    {
        Player { x: x, y: y, radius: 10, speed: 5 }
    }

    /// Moves the player by `dx * speed` and `dy * speed`, then clamps each
    /// coordinate so that the whole circle stays on screen. A diagonal move is
    /// not normalised: it covers `speed` pixels on each axis.
    pub fn update(&mut self, dx: i32, dy: i32)
        requires
            old(self).wf(),
        ensures
            final(self).wf(),
            final(self).radius == old(self).radius,
            final(self).speed == old(self).speed,
            (final(self).x as int, final(self).y as int) == old(self).moved(dx as int, dy as int),
    {
        proof {
            lemma_step_bounds(dx as int, self.speed as int);
            lemma_step_bounds(dy as int, self.speed as int);
        }
        let step_x: i64 = (dx as i64) * (self.speed as i64);
        let step_y: i64 = (dy as i64) * (self.speed as i64);
        self.x = clamp_axis(self.x as i64 + step_x, self.radius, SCREEN_WIDTH);
        self.y = clamp_axis(self.y as i64 + step_y, self.radius, SCREEN_HEIGHT);
    }
}

/// Whatever the intent, a player that fits on the screen ends every update
/// with its whole circle on the screen: `radius <= x <= width - radius` and
/// `radius <= y <= height - radius`.
pub proof fn lemma_update_stays_on_screen(p: Player, dx: int, dy: int)
    requires
        p.wf(),
        2 * p.radius <= SCREEN_WIDTH,
        2 * p.radius <= SCREEN_HEIGHT,
    ensures
        p.radius <= p.moved(dx, dy).0 <= SCREEN_WIDTH - p.radius,
        p.radius <= p.moved(dx, dy).1 <= SCREEN_HEIGHT - p.radius,
{
}

} // verus!
