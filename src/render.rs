//! What a frame draws: the filled circles, in drawing order, and their colours.
use vstd::prelude::*;

use crate::circle::BlueCircle;
use crate::player::Player;
use crate::scene::Scene;

verus! {

/// A colour as red, green and blue parts.
#[derive(Clone, Copy, Debug, PartialEq, Eq)]
pub struct Rgb {
    pub r: u8,
    pub g: u8,
    pub b: u8,
}

/// A filled circle to draw, in the 16-bit coordinates of the drawing calls.
#[derive(Clone, Copy, Debug, PartialEq, Eq)]
pub struct Disc {
    pub x: i16,
    pub y: i16,
    pub radius: i16,
    pub color: Rgb,
}

/// Black, the colour the screen is cleared to.
pub fn background() -> (c: Rgb)
    ensures
        c == (Rgb { r: 0, g: 0, b: 0 }),
{
    Rgb { r: 0, g: 0, b: 0 }
}

/// Red, the colour of the player.
pub fn player_color() -> (c: Rgb)
    ensures
        c == (Rgb { r: 255, g: 0, b: 0 }),
{
    Rgb { r: 255, g: 0, b: 0 }
}

/// Blue, the colour shared by the moving circles.
pub fn circle_color() -> (c: Rgb)
    ensures
        c == (Rgb { r: 0, g: 0, b: 255 }),
{
    Rgb { r: 0, g: 0, b: 255 }
}

/// `v` brought into the 16-bit range, saturating at either end.
pub open spec fn sat_i16(v: int) -> int {
    if v < i16::MIN {
        i16::MIN as int
    } else if v > i16::MAX {
        i16::MAX as int
    } else {
        v
    }
}

/// A coordinate or radius as the drawing calls take it, saturating at the
/// ends of the 16-bit range.
pub fn to_pixel(v: i32) -> (r: i16)
    ensures
        r == sat_i16(v as int),
{
    if v < i16::MIN as i32 {
        i16::MIN
    } else if v > i16::MAX as i32 {
        i16::MAX
    } else {
        v as i16
    }
}

/// The disc that shows the player.
pub open spec fn player_disc(p: Player) -> Disc {
    Disc {
        x: sat_i16(p.x as int) as i16,
        y: sat_i16(p.y as int) as i16,
        radius: sat_i16(p.radius as int) as i16,
        color: Rgb { r: 255, g: 0, b: 0 },
    }
}

/// The disc that shows a moving circle.
pub open spec fn circle_disc(c: BlueCircle) -> Disc {
    Disc {
        x: sat_i16(c.x as int) as i16,
        y: sat_i16(c.y as int) as i16,
        radius: sat_i16(c.radius as int) as i16,
        color: Rgb { r: 0, g: 0, b: 255 },
    }
}

impl Scene {
    /// The discs of a frame in drawing order: the player first, then every
    /// moving circle in the order the scene holds them.
    pub fn discs(&self) -> (ds: Vec<Disc>)
        ensures
            ds@.len() == self.circles@.len() + 1,
            ds@[0] == player_disc(self.player),
            forall|i: int|
                0 <= i < self.circles@.len() ==> #[trigger] ds@[i + 1] == circle_disc(
                    self.circles@[i],
                ),
    {
        let mut ds: Vec<Disc> = Vec::new();
        ds.push(
            Disc {
                x: to_pixel(self.player.x),
                y: to_pixel(self.player.y),
                radius: to_pixel(self.player.radius),
                color: player_color(),
            },
        );
        let mut i: usize = 0;
        while i < self.circles.len()
            invariant
                i <= self.circles@.len(),
                ds@.len() == i + 1,
                ds@[0] == player_disc(self.player),
                forall|j: int|
                    0 <= j < i ==> #[trigger] ds@[j + 1] == circle_disc(self.circles@[j]),
            decreases self.circles@.len() - i,
        {
            let c = self.circles[i];
            ds.push(
                Disc {
                    x: to_pixel(c.x),
                    y: to_pixel(c.y),
                    radius: to_pixel(c.radius),
                    color: circle_color(),
                },
            );
            i = i + 1;
        }
        ds
    }
}

} // verus!
