//! The moving entities: circles that travel at a constant speed and bounce
//! off the edges of the screen.
use vstd::prelude::*;

use crate::screen::{crosses_spec, SCREEN_HEIGHT, SCREEN_WIDTH};

verus! {

/// A circle that moves by `(speed_x, speed_y)` every frame.
#[derive(Clone, Copy, Debug, PartialEq, Eq)]
pub struct BlueCircle {
    pub x: i32,
    pub y: i32,
    pub radius: i32,
    pub speed_x: i32,
    pub speed_y: i32,
}

/// Absolute value of an integer.
pub open spec fn abs(v: int) -> int {
    if v < 0 {
        -v
    } else {
        v
    }
}

/// The band that a bouncing coordinate never leaves. The centre stays in
/// `[0, bound]` widened by one frame of travel, and while it is outside
/// `[0, bound]` its velocity points back towards it. The speed also leaves room
/// for that band in 32 bits.
pub open spec fn axis_ok(p: int, v: int, bound: int) -> bool {
    &&& abs(v) + bound <= i32::MAX
    &&& -abs(v) <= p <= bound + abs(v)
    &&& v < 0 ==> 0 <= p
    &&& v > 0 ==> p <= bound
}

/// One coordinate and its velocity after a frame: the coordinate advances by
/// the velocity, and the velocity changes sign when the circle then reaches
/// past an edge.
pub open spec fn bounce_spec(p: int, v: int, r: int, bound: int) -> (int, int) {
    let q = p + v;
    (q, if crosses_spec(q, r, bound) { -v } else { v })
}

impl BlueCircle {
    /// The circle that `new(x, y)` makes.
    pub open spec fn new_spec(x: i32, y: i32) -> BlueCircle {
        BlueCircle { x: x, y: y, radius: 15, speed_x: 3, speed_y: 3 }
    }

    /// A circle keeps a radius that is not negative and, on each axis, stays
    /// in the band of `axis_ok`.
    pub open spec fn wf(&self) -> bool {
        &&& 0 <= self.radius
        &&& axis_ok(self.x as int, self.speed_x as int, SCREEN_WIDTH as int)
        &&& axis_ok(self.y as int, self.speed_y as int, SCREEN_HEIGHT as int)
    }

    /// Whether the update of this circle fits in 32 bits.
    pub open spec fn can_update(&self) -> bool {
        &&& i32::MIN <= self.x + self.speed_x <= i32::MAX
        &&& i32::MIN <= self.y + self.speed_y <= i32::MAX
        &&& self.speed_x != i32::MIN
        &&& self.speed_y != i32::MIN
    }

    /// This circle one frame later.
    pub open spec fn updated(&self) -> BlueCircle {
        let (x, speed_x) = bounce_spec(
            self.x as int,
            self.speed_x as int,
            self.radius as int,
            SCREEN_WIDTH as int,
        );
        let (y, speed_y) = bounce_spec(
            self.y as int,
            self.speed_y as int,
            self.radius as int,
            SCREEN_HEIGHT as int,
        );
        BlueCircle {
            x: x as i32,
            y: y as i32,
            radius: self.radius,
            speed_x: speed_x as i32,
            speed_y: speed_y as i32,
        }
    }

    /// A circle centred at `(x, y)` with a radius of 15, moving 3 pixels right
    /// and 3 pixels down per frame.
    pub fn new(x: i32, y: i32) -> (c: BlueCircle)
        ensures
            c.x == x,
            c.y == y,
            c.radius == 15,
            c.speed_x == 3,
            c.speed_y == 3,
            c == BlueCircle::new_spec(x, y),
            0 <= x <= SCREEN_WIDTH && 0 <= y <= SCREEN_HEIGHT ==> c.wf(),
    {
        let radius: i32 = 15;
        let speed: i32 = 3;
        BlueCircle { x: x, y: y, radius: radius, speed_x: speed, speed_y: speed }
    }

    /// Moves the circle by its velocity, then reverses each velocity component
    /// whose axis the circle now reaches past. The circle is not pushed back:
    /// for one frame it may stick out of the screen.
    pub fn update(&mut self)
        requires
            old(self).can_update(),
        ensures
            *final(self) == old(self).updated(),
    {
        self.x = self.x + self.speed_x;
        self.y = self.y + self.speed_y;
        if self.x < self.radius || self.x as i64 + self.radius as i64 > SCREEN_WIDTH as i64 {
            self.speed_x = -self.speed_x;
        }
        if self.y < self.radius || self.y as i64 + self.radius as i64 > SCREEN_HEIGHT as i64 {
            self.speed_y = -self.speed_y;
        }
    }
}

/// A circle in its band can always be updated, and stays in its band: the
/// bouncing circles never drift away from the screen.
pub proof fn lemma_update_keeps_wf(c: BlueCircle)
    requires
        c.wf(),
    ensures
        c.can_update(),
        c.updated().wf(),
{
}

/// On each axis independently, an update reverses the velocity component
/// exactly when the moved circle reaches past that axis's edges, and leaves it
/// as it was otherwise.
pub proof fn lemma_reflection(c: BlueCircle)
    requires
        c.can_update(),
    ensures
        crosses_spec(c.x + c.speed_x, c.radius as int, SCREEN_WIDTH as int)
            ==> c.updated().speed_x == -c.speed_x,
        !crosses_spec(c.x + c.speed_x, c.radius as int, SCREEN_WIDTH as int)
            ==> c.updated().speed_x == c.speed_x,
        crosses_spec(c.y + c.speed_y, c.radius as int, SCREEN_HEIGHT as int)
            ==> c.updated().speed_y == -c.speed_y,
        !crosses_spec(c.y + c.speed_y, c.radius as int, SCREEN_HEIGHT as int)
            ==> c.updated().speed_y == c.speed_y,
        c.updated().x == c.x + c.speed_x,
        c.updated().y == c.y + c.speed_y,
{
}

} // verus!
