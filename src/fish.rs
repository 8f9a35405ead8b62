use vstd::prelude::*;

use rand_pcg::Lcg64Xsh32;

use crate::geometry::{cvt, Dir, Point, PointValue, Size};
use crate::random::{gen_bool, gen_range_i32, gen_range_u32, gen_range_u8, gen_ratio};
use crate::sprite::{sprite_sample, Sprite, FUDGE_FACTOR, NUM_FRAMES};

verus! {

/// Ticks per animation frame: larger is slower, 1 is fastest.
pub const ANIMATION_SPEED: u8 = 2;

/// Number of animation phases a fish cycles through.
pub open spec fn num_phases() -> int {
    NUM_FRAMES * ANIMATION_SPEED
}

/// The phase after `a`, wrapping to 0.
pub open spec fn next_phase(a: int) -> int {
    if a + 1 >= num_phases() {
        0
    } else {
        a + 1
    }
}

/// A bounding box of `size` can spawn on `screen`, and every coordinate a
/// fish of that size reaches while visible is a safe `i32`.
pub open spec fn box_fits(screen: Size, size: Size) -> bool {
    &&& 0 < size.width < screen.width
    &&& 0 < size.height < screen.height
    &&& screen.width + size.width + 2 <= i32::MAX
    &&& screen.height + size.height + 2 <= i32::MAX
}

/// One fish: the sprite of its species, where its bounding box is, which way
/// it faces and how far through its animation it is.
#[derive(Clone, Copy)]
pub struct Fish<'a> {
    pub fish_type: Sprite<'a>,
    pub upper_left: Point,
    pub size: Size,
    pub direction: Dir,
    pub animation: u8,
}

impl<'a> Fish<'a> {
    /// The bounding box is the sprite plus the margin on each side, and the
    /// phase is in range.
    pub open spec fn wf(&self) -> bool {
        &&& self.fish_type.wf()
        &&& self.size.width == self.fish_type.size.width + 2 * FUDGE_FACTOR
        &&& self.size.height == self.fish_type.size.height + 2 * FUDGE_FACTOR
        &&& self.animation < num_phases()
    }

    /// The box's edges are `i32` values.
    pub open spec fn edges_fit(&self) -> bool {
        &&& self.size.width <= i32::MAX
        &&& self.size.height <= i32::MAX
        &&& i32::MIN < self.upper_left.x
        &&& self.upper_left.x + self.size.width < i32::MAX
        &&& i32::MIN < self.upper_left.y
        &&& self.upper_left.y + self.size.height < i32::MAX
    }

    /// The box's edges stay `i32` values after one more step in any direction.
    pub open spec fn coords_fit(&self) -> bool {
        &&& self.edges_fit()
        &&& i32::MIN + 1 < self.upper_left.x
        &&& self.upper_left.x + self.size.width + 1 < i32::MAX
        &&& i32::MIN + 1 < self.upper_left.y
        &&& self.upper_left.y + self.size.height + 1 < i32::MAX
    }

    /// The bounding box holds the point `(x, y)`.
    pub open spec fn contains(&self, x: int, y: int) -> bool {
        &&& self.upper_left.x <= x < self.upper_left.x + self.size.width
        &&& self.upper_left.y <= y < self.upper_left.y + self.size.height
    }

    /// What the fish shows at screen point `(x, y)`; a fish facing left shows
    /// its sprite mirrored.
    pub open spec fn sample(&self, x: int, y: int) -> PointValue {
        if !self.contains(x, y) {
            PointValue::OutOfRange
        } else {
            let lx = x - self.upper_left.x;
            let ly = y - self.upper_left.y;
            let mx = if self.direction == Dir::Left {
                self.size.width - (lx + 1)
            } else {
                lx
            };
            sprite_sample(self.fish_type, mx, ly, (self.animation / ANIMATION_SPEED) as int)
        }
    }

    /// The bounding box overlaps the screen or touches its edge.
    pub open spec fn visible(&self, screen: Size) -> bool {
        &&& self.upper_left.y <= screen.height
        &&& self.upper_left.y + self.size.height >= 0
        &&& self.upper_left.x <= screen.width
        &&& self.upper_left.x + self.size.width >= 0
    }

    /// The fish after one tick that moved it a pixel forward or not, shifted
    /// it by `dy` rows and advanced its phase.
    pub open spec fn stepped(&self, moved: bool, dy: int) -> Fish<'a> {
        let dx: int = if !moved {
            0
        } else if self.direction == Dir::Left {
            -1
        } else {
            1
        };
        Fish {
            upper_left: Point {
                x: (self.upper_left.x + dx) as i32,
                y: (self.upper_left.y + dy) as i32,
            },
            animation: next_phase(self.animation as int) as u8,
            ..*self
        }
    }

    /// `self` is `f` respawned just past the edge it swims away from, on a
    /// row where its box fits, with some phase.
    pub open spec fn respawn_of(&self, f: Fish<'a>, screen: Size) -> bool {
        &&& self.fish_type == f.fish_type
        &&& self.size == f.size
        &&& self.animation < num_phases()
        &&& self.direction == Dir::Left ==> self.upper_left.x == screen.width
        &&& self.direction == Dir::Right ==> self.upper_left.x == -self.size.width
        &&& 0 <= self.upper_left.y < screen.height - self.size.height
    }

    /// `self` is what one tick makes of `old` for the given draws: the step,
    /// followed by a respawn if the step left the screen.
    pub open spec fn swim_result(&self, old: Fish<'a>, screen: Size, moved: bool, dy: int) -> bool {
        let s = old.stepped(moved, dy);
        &&& -1 <= dy <= 1
        &&& s.visible(screen) ==> *self == s
        &&& !s.visible(screen) ==> self.respawn_of(s, screen)
    }

    /// `self` is what one tick can make of `old`.
    pub open spec fn swum_from(&self, old: Fish<'a>, screen: Size) -> bool {
        exists|moved: bool, dy: int| #[trigger] self.swim_result(old, screen, moved, dy)
    }

    /// What the fish shows at `pt`.
    pub fn get_point(&self, pt: &Point) -> (r: PointValue)
        requires
            self.wf(),
            self.edges_fit(),
        ensures
            r == self.sample(pt.x as int, pt.y as int),
    {
        if pt.x < self.upper_left.x || pt.y < self.upper_left.y || pt.x >= self.upper_left.x + cvt(
            self.size.width,
        ) || pt.y >= self.upper_left.y + cvt(self.size.height) {
            PointValue::OutOfRange
        } else {
            let mut x = pt.x - self.upper_left.x;
            let y = pt.y - self.upper_left.y;
            if self.direction == Dir::Left {
                x = cvt(self.size.width) - (x + 1);
            }
            self.fish_type.get_point(&Point::new(x, y), self.animation / ANIMATION_SPEED)
        }
    }

    /// Whether the bounding box overlaps or touches the screen.
    pub fn on_screen(&self, screen: &Size) -> (r: bool)
        requires
            self.edges_fit(),
            screen.width <= i32::MAX,
            screen.height <= i32::MAX,
        ensures
            r == self.visible(*screen),
    {
        self.upper_left.y <= cvt(screen.height) && self.upper_left.y + cvt(self.size.height) >= 0
            && self.upper_left.x <= cvt(screen.width) && self.upper_left.x + cvt(self.size.width)
            >= 0
    }

    /// Puts the fish just past the edge it will swim away from: facing left at
    /// `x = screen.width`, or facing right at `x = -width`, on row `y`, with
    /// phase `phase`.
    pub fn place(&mut self, screen: &Size, phase: u8, left: bool, y: u32)
        requires
            old(self).wf(),
            box_fits(*screen, old(self).size),
            phase < num_phases(),
            y < screen.height - old(self).size.height,
        ensures
            final(self).respawn_of(*old(self), *screen),
            final(self).wf(),
            final(self).coords_fit(),
            final(self).animation == phase,
            final(self).direction == (if left { Dir::Left } else { Dir::Right }),
            final(self).upper_left.y == y,
    {
        self.animation = phase;
        if left {
            self.direction = Dir::Left;
            self.upper_left.x = cvt(screen.width);
        } else {
            self.direction = Dir::Right;
            self.upper_left.x = -cvt(self.size.width);
        }
        self.upper_left.y = cvt(y);
    }

    /// Respawns the fish off one edge with a random phase, direction and row.
    pub fn randomize(&mut self, screen: &Size, rng: &mut Lcg64Xsh32)
        requires
            old(self).wf(),
            box_fits(*screen, old(self).size),
        ensures
            final(self).respawn_of(*old(self), *screen),
            final(self).wf(),
            final(self).coords_fit(),
    {
        let lo: u8 = 0;
        let hi: u8 = NUM_FRAMES as u8;
        let phase = gen_range_u8(rng, lo, hi * ANIMATION_SPEED);
        let left = gen_bool(rng);
        let y = gen_range_u32(rng, 0, screen.height - self.size.height);
        self.place(screen, phase, left, y);
    }

    /// Moves the fish to a random column where its box lies on the screen.
    pub fn randomize_x(&mut self, screen: &Size, rng: &mut Lcg64Xsh32)
        requires
            old(self).wf(),
            box_fits(*screen, old(self).size),
        ensures
            0 <= final(self).upper_left.x < screen.width - old(self).size.width,
            final(self).upper_left.y == old(self).upper_left.y,
            final(self).fish_type == old(self).fish_type,
            final(self).size == old(self).size,
            final(self).direction == old(self).direction,
            final(self).animation == old(self).animation,
    {
        self.upper_left.x = cvt(gen_range_u32(rng, 0, screen.width - self.size.width));
    }

    /// One tick with given draws: a pixel forward if `moved`, `dy` rows down
    /// and the next animation phase.
    pub fn step(&mut self, moved: bool, dy: i32)
        requires
            old(self).wf(),
            old(self).coords_fit(),
            -1 <= dy <= 1,
        ensures
            *final(self) == old(self).stepped(moved, dy as int),
            final(self).wf(),
            final(self).edges_fit(),
    {
        if moved {
            self.upper_left.x = self.upper_left.x + match self.direction {
                Dir::Left => -1i32,
                Dir::Right => 1i32,
            };
        }
        self.upper_left.y = self.upper_left.y + dy;
        self.animation = self.animation + 1;
        let num_frames: u8 = NUM_FRAMES as u8;
        if self.animation >= num_frames * ANIMATION_SPEED {
            self.animation = 0;
        }
    }

    /// One tick: moves forward with probability 3/4, shifts a row up or down
    /// or not with probability 1/8, advances the phase, and respawns the fish
    /// if it has left the screen.
    pub fn swim(&mut self, screen: &Size, rng: &mut Lcg64Xsh32)
        requires
            old(self).wf(),
            old(self).coords_fit(),
            box_fits(*screen, old(self).size),
        ensures
            final(self).swum_from(*old(self), *screen),
            final(self).wf(),
            final(self).coords_fit(),
            final(self).visible(*screen),
            final(self).size == old(self).size,
            final(self).fish_type == old(self).fish_type,
    {
        let ghost start = *self;
        let moved = gen_ratio(rng, 3, 4);
        let mut dy: i32 = 0;
        if gen_ratio(rng, 1, 8) {
            dy = gen_range_i32(rng, -1, 2);
        }
        self.step(moved, dy);
        if self.on_screen(screen) == false {
            self.randomize(screen, rng);
        }
        assert(self.swim_result(start, *screen, moved, dy as int));
    }

    /// A fish of `sprite` at the origin, facing right, at phase 0.
    pub fn new(sprite: Sprite<'a>) -> (r: Fish<'a>)
        requires
            sprite.wf(),
        ensures
            r.wf(),
            r.fish_type == sprite,
            r.upper_left.x == 0,
            r.upper_left.y == 0,
            r.size.width == sprite.size.width + 2,
            r.size.height == sprite.size.height + 2,
            r.direction == Dir::Right,
            r.animation == 0,
    {
        let ff2: u32 = (FUDGE_FACTOR * 2) as u32;
        Fish {
            fish_type: sprite,
            upper_left: Point::new(0, 0),
            size: Size::new(sprite.size.width + ff2, sprite.size.height + ff2),
            direction: Dir::Right,
            animation: 0,
        }
    }
}

/// The phase after `n` ticks from phase `a`.
pub open spec fn phase_after(a: int, n: nat) -> int
    decreases n,
{
    if n == 0 {
        a
    } else {
        next_phase(phase_after(a, (n - 1) as nat))
    }
}

/// The animation is a cycle of `num_phases()` ticks: from any phase, that
/// many ticks bring the fish back to it, and from phase 0 no fewer do.
pub proof fn lemma_phase_cycle(a: int)
    requires
        0 <= a < num_phases(),
    ensures
        phase_after(a, num_phases() as nat) == a,
        forall|n: nat| 0 < n < num_phases() ==> #[trigger] phase_after(0, n) == n,
{
    reveal_with_fuel(phase_after, 7);
    assert forall|n: nat| 0 < n < num_phases() implies #[trigger] phase_after(0, n) == n by {
        reveal_with_fuel(phase_after, 7);
    }
}

/// A respawned fish is back on the screen, just past the edge it swims away
/// from.
pub proof fn lemma_respawn_visible(f: Fish, g: Fish, screen: Size)
    requires
        box_fits(screen, f.size),
        g.respawn_of(f, screen),
    ensures
        g.visible(screen),
        g.direction == Dir::Left ==> g.upper_left.x == screen.width,
        g.direction == Dir::Right ==> g.upper_left.x + g.size.width == 0,
{
}

/// A fish whose box lies more than a pixel past the screen's right or left
/// edge leaves the screen whatever it draws, so one tick respawns it: it ends
/// visible, entering from the side its new direction dictates.
pub proof fn lemma_swim_respawns_offscreen(old: Fish, new: Fish, screen: Size)
    requires
        box_fits(screen, old.size),
        old.coords_fit(),
        old.upper_left.x > screen.width + 1 || old.upper_left.x + old.size.width < -1,
        new.swum_from(old, screen),
    ensures
        !old.visible(screen),
        new.visible(screen),
        new.size == old.size,
        new.fish_type == old.fish_type,
        new.direction == Dir::Left ==> new.upper_left.x == screen.width,
        new.direction == Dir::Right ==> new.upper_left.x + new.size.width == 0,
        0 <= new.upper_left.y < screen.height - new.size.height,
{
    let (moved, dy) = choose|moved: bool, dy: int| #[trigger] new.swim_result(old, screen, moved, dy);
    let s = old.stepped(moved, dy);
    assert(!s.visible(screen));
    lemma_respawn_visible(s, new, screen);
}

/// A tick that leaves the fish on the screen advances its phase by one,
/// wrapping at `num_phases()`.
pub proof fn lemma_swim_advances_phase(old: Fish, new: Fish, screen: Size)
    requires
        new.swum_from(old, screen),
        old.stepped(false, 0).visible(screen),
        old.stepped(true, 0).visible(screen),
        old.stepped(false, -1).visible(screen),
        old.stepped(true, -1).visible(screen),
        old.stepped(false, 1).visible(screen),
        old.stepped(true, 1).visible(screen),
    ensures
        new.animation == next_phase(old.animation as int),
{
    let (moved, dy) = choose|moved: bool, dy: int| #[trigger] new.swim_result(old, screen, moved, dy);
    assert(old.stepped(moved, dy).visible(screen));
}

} // verus!
