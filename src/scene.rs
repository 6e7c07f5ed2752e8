//! The scene: one player and the bouncing circles, advanced a frame at a time.
use vstd::prelude::*;

use crate::circle::BlueCircle;
use crate::collision::hits_spec;
use crate::input::{intent, intent_x, intent_y, FrameInput};
use crate::player::Player;
use crate::screen::{CENTER_X, CENTER_Y, SCREEN_HEIGHT, SCREEN_WIDTH};

verus! {

/// How many circles a scene starts with.
pub const CIRCLE_COUNT: usize = 10;

/// A starting coordinate in `[0, bound)` taken from a random draw.
pub fn spawn_coordinate(draw: u32, bound: i32) -> (r: i32)
    requires
        0 < bound,
    ensures
        r == draw as int % bound as int,
        0 <= r < bound,
{
    (draw as u64 % bound as u64) as i32
}

/// Whether some circle of `cs` overlaps the player `p`.
pub open spec fn any_hit(p: Player, cs: Seq<BlueCircle>) -> bool {
    exists|i: int| 0 <= i < cs.len() && hits_spec(p, #[trigger] cs[i])
}

/// The player after the collision checks of a frame: sent to the centre of the
/// screen if any circle overlaps it, untouched otherwise. Every circle is
/// checked against the same position, so the outcome does not depend on the
/// order of the circles nor on how many of them overlap.
pub open spec fn resolved(p: Player, cs: Seq<BlueCircle>) -> Player {
    if any_hit(p, cs) {
        Player { x: CENTER_X, y: CENTER_Y, ..p }
    } else {
        p
    }
}

/// Every circle of `cs` one frame later.
pub open spec fn all_updated(cs: Seq<BlueCircle>) -> Seq<BlueCircle> {
    cs.map_values(|c: BlueCircle| c.updated())
}

/// A single overlapping circle is enough to send the player to the centre,
/// whatever the other circles do: however many circles overlap it, the frame
/// makes the one reset.
pub proof fn lemma_collision_resets(p: Player, cs: Seq<BlueCircle>, i: int)
    requires
        0 <= i < cs.len(),
        hits_spec(p, cs[i]),
    ensures
        resolved(p, cs) == (Player { x: CENTER_X, y: CENTER_Y, ..p }),
{
}

/// Resolving collisions gives the same player for any order of the same
/// circles.
pub proof fn lemma_resolution_order_free(p: Player, cs1: Seq<BlueCircle>, cs2: Seq<BlueCircle>)
    requires
        cs1.to_multiset() =~= cs2.to_multiset(),
    ensures
        resolved(p, cs1) == resolved(p, cs2),
{
    cs1.to_multiset_ensures();
    cs2.to_multiset_ensures();
    if any_hit(p, cs1) {
        let i = choose|i: int| 0 <= i < cs1.len() && hits_spec(p, #[trigger] cs1[i]);
        assert(cs1.contains(cs1[i]));
        assert(cs1.to_multiset().count(cs1[i]) > 0);
        assert(cs2.to_multiset().count(cs1[i]) > 0);
        let j = choose|j: int| 0 <= j < cs2.len() && cs2[j] == cs1[i];
        assert(hits_spec(p, cs2[j]));
    }
    if any_hit(p, cs2) {
        let i = choose|i: int| 0 <= i < cs2.len() && hits_spec(p, #[trigger] cs2[i]);
        assert(cs2.contains(cs2[i]));
        assert(cs2.to_multiset().count(cs2[i]) > 0);
        assert(cs1.to_multiset().count(cs2[i]) > 0);
        let j = choose|j: int| 0 <= j < cs1.len() && cs1[j] == cs2[i];
        assert(hits_spec(p, cs1[j]));
    }
}

/// The player at the end of a frame with intent `(dx, dy)` that starts from
/// `p` and the circles `cs`: moved and clamped, then checked against the
/// circles as they stand after their own move.
pub open spec fn player_after_step(p: Player, cs: Seq<BlueCircle>, dx: int, dy: int) -> Player {
    resolved(
        Player { x: p.moved(dx, dy).0 as i32, y: p.moved(dx, dy).1 as i32, ..p },
        all_updated(cs),
    )
}

/// Everything that a frame changes.
pub struct Scene {
    pub player: Player,
    pub circles: Vec<BlueCircle>,
}

impl Scene {
    /// A scene with the player at the centre of the screen and one circle
    /// for each pair of draws, at the coordinates that `spawn_coordinate`
    /// takes from them.
    pub fn new(draws: &Vec<(u32, u32)>) -> (s: Scene)
        ensures
            s.wf(),
            s.player == Player::new_spec(CENTER_X, CENTER_Y),
            s.circles@.len() == draws@.len(),
            forall|i: int|
                0 <= i < draws@.len() ==> #[trigger] s.circles@[i] == BlueCircle::new_spec(
                    (draws@[i].0 as int % SCREEN_WIDTH as int) as i32,
                    (draws@[i].1 as int % SCREEN_HEIGHT as int) as i32,
                ),
    {
        let player = Player::new(CENTER_X, CENTER_Y);
        let mut circles: Vec<BlueCircle> = Vec::new();
        let mut i: usize = 0;
        while i < draws.len()
            invariant
                i <= draws@.len(),
                circles@.len() == i,
                forall|j: int| 0 <= j < i ==> (#[trigger] circles@[j]).wf(),
                forall|j: int|
                    0 <= j < i ==> #[trigger] circles@[j] == BlueCircle::new_spec(
                        (draws@[j].0 as int % SCREEN_WIDTH as int) as i32,
                        (draws@[j].1 as int % SCREEN_HEIGHT as int) as i32,
                    ),
            decreases draws@.len() - i,
        {
            let (dx, dy) = draws[i];
            let x = spawn_coordinate(dx, SCREEN_WIDTH);
            let y = spawn_coordinate(dy, SCREEN_HEIGHT);
            circles.push(BlueCircle::new(x, y));
            i = i + 1;
        }
        Scene { player: player, circles: circles }
    }

    /// A scene with the player at the centre and `CIRCLE_COUNT` circles at
    /// random places on the screen.
    pub fn new_random() -> (s: Scene)
        ensures
            s.wf(),
            s.player == Player::new_spec(CENTER_X, CENTER_Y),
            s.circles@.len() == CIRCLE_COUNT,
            forall|i: int|
                0 <= i < CIRCLE_COUNT ==> {
                    let c = #[trigger] s.circles@[i];
                    &&& 0 <= c.x < SCREEN_WIDTH
                    &&& 0 <= c.y < SCREEN_HEIGHT
                    &&& c.radius == 15
                    &&& c.speed_x == 3
                    &&& c.speed_y == 3
                },
    {
        let mut draws: Vec<(u32, u32)> = Vec::new();
        let mut i: usize = 0;
        while i < CIRCLE_COUNT
            invariant
                i <= CIRCLE_COUNT,
                draws@.len() == i,
            decreases CIRCLE_COUNT - i,
        {
            let dx: u32 = rand::random::<u32>();
            let dy: u32 = rand::random::<u32>();
            draws.push((dx, dy));
            i = i + 1;
        }
        Scene::new(&draws)
    }

    /// The player and every circle are well formed.
    pub open spec fn wf(&self) -> bool {
        &&& self.player.wf()
        &&& forall|i: int| 0 <= i < self.circles@.len() ==> (#[trigger] self.circles@[i]).wf()
    }

    /// Sends the player to the centre of the screen if any circle overlaps it.
    /// All circles are tested against the player's position from before the
    /// first test.
    pub fn resolve_collisions(&mut self)
        ensures
            final(self).player == resolved(old(self).player, old(self).circles@),
            final(self).circles@ == old(self).circles@,
    {
        let snapshot = self.player;
        let mut hit = false;
        let mut i: usize = 0;
        while i < self.circles.len()
            invariant
                self.player == snapshot,
                i <= self.circles@.len(),
                hit == exists|j: int| 0 <= j < i && hits_spec(snapshot, #[trigger] self.circles@[j]),
            decreases self.circles@.len() - i,
        {
            if self.circles[i].hits(&snapshot) {
                hit = true;
            }
            i = i + 1;
        }
        if hit {
            self.player.x = CENTER_X;
            self.player.y = CENTER_Y;
        }
    }

    /// Advances the scene by one frame: the player moves by the intent
    /// `(dx, dy)` and is clamped to the screen, every circle moves and
    /// bounces, and then the player goes back to the centre if any circle
    /// overlaps it.
    pub fn step(&mut self, dx: i32, dy: i32)
        requires
            old(self).wf(),
        ensures
            final(self).wf(),
            final(self).circles@ == all_updated(old(self).circles@),
            final(self).player == player_after_step(
                old(self).player,
                old(self).circles@,
                dx as int,
                dy as int,
            ),
    {
        self.player.update(dx, dy);
        let ghost moved = self.player;
        let ghost start = self.circles@;
        let mut i: usize = 0;
        while i < self.circles.len()
            invariant
                self.player == moved,
                moved.wf(),
                self.circles@.len() == start.len(),
                i <= start.len(),
                forall|j: int| 0 <= j < start.len() ==> (#[trigger] start[j]).wf(),
                forall|j: int| 0 <= j < i ==> self.circles@[j] == (#[trigger] start[j]).updated(),
                forall|j: int| i <= j < start.len() ==> self.circles@[j] == #[trigger] start[j],
            decreases start.len() - i,
        {
            let mut c = self.circles[i];
            proof {
                assert(c == start[i as int]);
                crate::circle::lemma_update_keeps_wf(c);
            }
            c.update();
            self.circles.set(i, c);
            i = i + 1;
        }
        proof {
            assert(self.circles@ =~= all_updated(start));
            assert forall|j: int| 0 <= j < self.circles@.len() implies (#[trigger] self.circles@[j]).wf() by {
                crate::circle::lemma_update_keeps_wf(start[j]);
            }
        }
        self.resolve_collisions();
    }

    /// Runs the decisions of one frame. A quit ends the run at once and leaves
    /// the scene as it was; any other input advances the scene by one frame
    /// with the intent of the held keys. Returns whether the run goes on.
    pub fn frame(&mut self, input: &FrameInput) -> (running: bool)
        requires
            old(self).wf(),
        ensures
            final(self).wf(),
            running == !input.quit,
            input.quit ==> final(self).player == old(self).player && final(self).circles@
                == old(self).circles@,
            !input.quit ==> final(self).circles@ == all_updated(old(self).circles@)
                && final(self).player == player_after_step(
                old(self).player,
                old(self).circles@,
                intent_x(input.keys),
                intent_y(input.keys),
            ),
    {
        if input.quit {
            return false;
        }
        let (dx, dy) = intent(&input.keys);
        self.step(dx, dy);
        true
    }
}

} // verus!
