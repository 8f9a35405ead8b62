use vstd::prelude::*;

use rand_pcg::Lcg64Xsh32;

use crate::fish::{box_fits, num_phases, Fish};
use crate::geometry::{Point, PointValue, Size};
use crate::random::{cast_words, pcg32};
use crate::sprite::{atlas_ok, check_atlas, sprite_height, sprite_width, Sprite, NUM_SPRITES};

verus! {

/// Number of fish in the tank; species repeat when it exceeds the number of
/// sprites.
pub const NUM_FISH: usize = 10;

/// Stream selector of the tank's generator.
pub const PCG_STREAM: u64 = 0xdefacedbadfacade;

/// What the first `n` fish show at `(x, y)`, a lower index drawn on top: the
/// first opaque pixel wins, else a box that covers the point makes it
/// transparent.
pub open spec fn layered(fish: Seq<Fish>, x: int, y: int, n: int) -> PointValue
    decreases n,
{
    if n <= 0 {
        PointValue::OutOfRange
    } else {
        let above = layered(fish, x, y, n - 1);
        let here = fish[n - 1].sample(x, y);
        if above is Opaque || here is OutOfRange {
            above
        } else {
            here
        }
    }
}

/// The bounding box of sprite `i` of the atlas fits `screen`.
pub open spec fn sprite_fits(screen: Size, words: Seq<u16>, i: int) -> bool {
    box_fits(
        screen,
        Size {
            width: (sprite_width(words, i) + 2) as u32,
            height: (sprite_height(words, i) + 2) as u32,
        },
    )
}

/// Every species of the atlas fits `screen`.
pub open spec fn screen_fits(screen: Size, words: Seq<u16>) -> bool {
    forall|i: int| 0 <= i < NUM_SPRITES ==> #[trigger] sprite_fits(screen, words, i)
}

/// A fixed pool of fish on a screen, and the generator that moves them.
pub struct FishTank<'a> {
    pub fish: Vec<Fish<'a>>,
    pub size: Size,
    pub rng: Lcg64Xsh32,
}

impl<'a> FishTank<'a> {
    /// Exactly `NUM_FISH` fish, each well formed, fitting the screen and
    /// visible on it.
    pub open spec fn wf(&self) -> bool {
        &&& self.fish@.len() == NUM_FISH
        &&& forall|i: int|
            0 <= i < NUM_FISH ==> {
                &&& (#[trigger] self.fish@[i]).wf()
                &&& box_fits(self.size, self.fish@[i].size)
                &&& self.fish@[i].visible(self.size)
            }
    }

    /// What the tank shows at `(x, y)`.
    pub open spec fn sample(&self, x: int, y: int) -> PointValue {
        layered(self.fish@, x, y, self.fish@.len() as int)
    }

    /// A tank on `screen_size` seeded with `seed`, fish `i` of species
    /// `i % NUM_SPRITES`, each respawned at an edge and then moved to a
    /// random column on the screen.
    pub fn new(screen_size: Size, seed: u64, sprite_data: &'a [u16]) -> (r: FishTank<'a>)
        requires
            atlas_ok(sprite_data@),
            screen_fits(screen_size, sprite_data@),
        ensures
            r.wf(),
            r.size == screen_size,
            forall|i: int|
                0 <= i < NUM_FISH ==> {
                    let f = #[trigger] r.fish@[i];
                    &&& f.fish_type.decodes(sprite_data@, i % NUM_SPRITES as int)
                    &&& 0 <= f.upper_left.x < screen_size.width - f.size.width
                    &&& 0 <= f.upper_left.y < screen_size.height - f.size.height
                    &&& f.animation < num_phases()
                },
    {
        let mut rng = pcg32(seed, PCG_STREAM);
        let mut fish: Vec<Fish<'a>> = Vec::new();
        let mut i: usize = 0;
        while i < NUM_FISH
            invariant
                i <= NUM_FISH,
                fish@.len() == i,
                atlas_ok(sprite_data@),
                screen_fits(screen_size, sprite_data@),
                forall|j: int|
                    0 <= j < i ==> {
                        let f = #[trigger] fish@[j];
                        &&& f.wf()
                        &&& box_fits(screen_size, f.size)
                        &&& f.fish_type.decodes(sprite_data@, j % NUM_SPRITES as int)
                        &&& 0 <= f.upper_left.x < screen_size.width - f.size.width
                        &&& 0 <= f.upper_left.y < screen_size.height - f.size.height
                        &&& f.animation < num_phases()
                    },
            decreases NUM_FISH - i,
        {
            let species: usize = i % NUM_SPRITES;
            let sprite = Sprite::make_sprite(species, sprite_data);
            let mut f = Fish::new(sprite);
            assert(sprite_fits(screen_size, sprite_data@, species as int));
            f.randomize(&screen_size, &mut rng);
            f.randomize_x(&screen_size, &mut rng);
            fish.push(f);
            i = i + 1;
        }
        FishTank { fish, size: screen_size, rng }
    }

    /// Advances every fish by one tick, in index order, all drawing from the
    /// tank's one generator.
    pub fn swim(&mut self)
        requires
            old(self).wf(),
        ensures
            final(self).wf(),
            final(self).size == old(self).size,
            forall|i: int|
                0 <= i < NUM_FISH ==> (#[trigger] final(self).fish@[i]).swum_from(
                    old(self).fish@[i],
                    old(self).size,
                ),
    {
        let size = self.size;
        let ghost before = self.fish@;
        let mut i: usize = 0;
        while i < NUM_FISH
            invariant
                i <= NUM_FISH,
                self.size == size,
                self.fish@.len() == NUM_FISH,
                before.len() == NUM_FISH,
                forall|j: int|
                    0 <= j < NUM_FISH ==> {
                        &&& (#[trigger] self.fish@[j]).wf()
                        &&& box_fits(size, self.fish@[j].size)
                        &&& self.fish@[j].visible(size)
                    },
                forall|j: int| i <= j < NUM_FISH ==> #[trigger] self.fish@[j] == before[j],
                forall|j: int|
                    0 <= j < i ==> (#[trigger] self.fish@[j]).swum_from(before[j], size),
            decreases NUM_FISH - i,
        {
            let mut f = self.fish[i];
            f.swim(&size, &mut self.rng);
            self.fish.set(i, f);
            i = i + 1;
        }
    }

    /// What the tank shows at `pt`: the color of the lowest-index fish that
    /// is opaque there, else transparent where some box covers the point,
    /// else out of range.
    pub fn get_point(&self, pt: &Point) -> (r: PointValue)
        requires
            self.wf(),
        ensures
            r == self.sample(pt.x as int, pt.y as int),
    {
        let ghost x = pt.x as int;
        let ghost y = pt.y as int;
        let mut ret = PointValue::OutOfRange;
        let mut i: usize = 0;
        while i < NUM_FISH
            invariant
                self.wf(),
                x == pt.x as int,
                y == pt.y as int,
                i <= NUM_FISH,
                ret == layered(self.fish@, x, y, i as int),
                !(ret is Opaque),
            decreases NUM_FISH - i,
        {
            let pv = self.fish[i].get_point(pt);
            assert(pv == self.fish@[i as int].sample(x, y));
            assert(layered(self.fish@, x, y, i as int + 1) == (if pv is OutOfRange {
                ret
            } else {
                pv
            }));
            match pv {
                PointValue::Opaque(c) => {
                    proof {
                        lemma_opaque_stays(self.fish@, x, y, i as int + 1, NUM_FISH as int);
                    }
                    return PointValue::Opaque(c);
                },
                PointValue::Transparent => ret = PointValue::Transparent,
                PointValue::OutOfRange => (),
            }
            i = i + 1;
        }
        ret
    }
}

/// Whether a bounding box of `size` fits `screen`.
pub fn check_box(screen: &Size, size: &Size) -> (r: bool)
    ensures
        r == box_fits(*screen, *size),
{
    let max: u64 = i32::MAX as u64;
    0 < size.width && size.width < screen.width && 0 < size.height && size.height
        < screen.height && screen.width as u64 + size.width as u64 + 2 <= max
        && screen.height as u64 + size.height as u64 + 2 <= max
}

/// Whether the bounding box of every species fits `screen`.
pub fn check_screen(screen: &Size, sprite_data: &[u16]) -> (r: bool)
    requires
        atlas_ok(sprite_data@),
    ensures
        r == screen_fits(*screen, sprite_data@),
{
    let mut i: usize = 0;
    while i < NUM_SPRITES
        invariant
            i <= NUM_SPRITES,
            atlas_ok(sprite_data@),
            forall|j: int| 0 <= j < i ==> #[trigger] sprite_fits(*screen, sprite_data@, j),
        decreases NUM_SPRITES - i,
    {
        let sprite = Sprite::make_sprite(i, sprite_data);
        let fish = Fish::new(sprite);
        if !check_box(screen, &fish.size) {
            assert(!sprite_fits(*screen, sprite_data@, i as int));
            return false;
        }
        i = i + 1;
    }
    true
}

impl<'a> FishTank<'a> {
    /// A tank as `new` builds it when the atlas is whole and every species
    /// fits the screen; `None` otherwise.
    pub fn try_new(screen_size: Size, seed: u64, sprite_data: &'a [u16]) -> (r: Option<FishTank<'a>>)
        ensures
            r is Some <==> atlas_ok(sprite_data@) && screen_fits(screen_size, sprite_data@),
            r matches Some(t) ==> t.wf() && t.size == screen_size,
            r matches Some(t) ==> forall|i: int|
                0 <= i < NUM_FISH ==> (#[trigger] t.fish@[i]).fish_type.decodes(
                    sprite_data@,
                    i % NUM_SPRITES as int,
                ),
    {
        if !check_atlas(sprite_data) || !check_screen(&screen_size, sprite_data) {
            None
        } else {
            Some(FishTank::new(screen_size, seed, sprite_data))
        }
    }

    /// A tank over an atlas given as raw bytes, read in place as 16-bit words
    /// in the machine's byte order; `None` where the bytes cannot be read so
    /// (odd length, misaligned buffer) or `try_new` refuses the words.
    pub fn from_bytes(screen_size: Size, seed: u64, bytes: &'a [u8]) -> (r: Option<FishTank<'a>>)
        ensures
            bytes@.len() % 2 == 1 ==> r is None,
            r matches Some(t) ==> t.wf() && t.size == screen_size,
    {
        match cast_words(bytes) {
            Some(words) => FishTank::try_new(screen_size, seed, words),
            None => None,
        }
    }
}

/// Once some fish is opaque at a point, fish below it change nothing there.
proof fn lemma_opaque_stays(fish: Seq<Fish>, x: int, y: int, i: int, n: int)
    requires
        0 <= i <= n,
        layered(fish, x, y, i) is Opaque,
    ensures
        layered(fish, x, y, n) == layered(fish, x, y, i),
    decreases n - i,
{
    if n > i {
        lemma_opaque_stays(fish, x, y, i, n - 1);
    }
}

/// Without an opaque fish among the first `n`, their layering is not opaque.
proof fn lemma_no_opaque(fish: Seq<Fish>, x: int, y: int, n: int)
    requires
        0 <= n <= fish.len(),
        forall|j: int| 0 <= j < n ==> !(#[trigger] fish[j].sample(x, y) is Opaque),
    ensures
        !(layered(fish, x, y, n) is Opaque),
    decreases n,
{
    if n > 0 {
        lemma_no_opaque(fish, x, y, n - 1);
    }
}

/// Lower index is on top: when fish `i` is the first one opaque at `(x, y)`,
/// the tank shows its color there, whatever the fish below it show.
pub proof fn lemma_lowest_opaque_wins(fish: Seq<Fish>, x: int, y: int, i: int)
    requires
        0 <= i < fish.len(),
        fish[i].sample(x, y) is Opaque,
        forall|j: int| 0 <= j < i ==> !(#[trigger] fish[j].sample(x, y) is Opaque),
    ensures
        layered(fish, x, y, fish.len() as int) == fish[i].sample(x, y),
{
    lemma_no_opaque(fish, x, y, i);
    lemma_opaque_stays(fish, x, y, i + 1, fish.len() as int);
}

/// The first `n` fish leave `(x, y)` out of range exactly when none of their
/// bounding boxes holds it.
pub proof fn lemma_out_of_range_iff_uncovered(fish: Seq<Fish>, x: int, y: int, n: int)
    requires
        0 <= n <= fish.len(),
    ensures
        (layered(fish, x, y, n) is OutOfRange) <==> (forall|j: int|
            0 <= j < n ==> !(#[trigger] fish[j].contains(x, y))),
    decreases n,
{
    if n > 0 {
        lemma_out_of_range_iff_uncovered(fish, x, y, n - 1);
        let here = fish[n - 1].sample(x, y);
        assert(fish[n - 1].contains(x, y) ==> !(here is OutOfRange));
    }
}

} // verus!
