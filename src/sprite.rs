use vstd::prelude::*;

use crate::geometry::{Point, PointValue, Size};

verus! {

/// Animation frames stored for every species.
pub const NUM_FRAMES: usize = 3;

/// Number of species in the atlas.
pub const NUM_SPRITES: usize = 10;

/// Reserved color word that marks a see-through sprite pixel.
pub const TRANSPARENT: u16 = 0xdead;

/// Border added on every side of a sprite so that the pixels a fish has
/// just left are inside its bounding box and get repainted.
pub const FUDGE_FACTOR: i32 = 1;

/// Word of the header of sprite `i` that packs its width and height.
pub open spec fn size_word(words: Seq<u16>, i: int) -> u16 {
    words[4 * i]
}

pub open spec fn sprite_width(words: Seq<u16>, i: int) -> int {
    (size_word(words, i) >> 8u16) as int
}

pub open spec fn sprite_height(words: Seq<u16>, i: int) -> int {
    (size_word(words, i) & 0xffu16) as int
}

/// Word offset at which frame `k` of sprite `i` starts.
pub open spec fn frame_offset(words: Seq<u16>, i: int, k: int) -> int {
    words[4 * i + 1 + k] as int
}

pub open spec fn frame_len(words: Seq<u16>, i: int) -> int {
    sprite_width(words, i) * sprite_height(words, i)
}

/// The words of frame `k` of sprite `i`.
pub open spec fn frame_words(words: Seq<u16>, i: int, k: int) -> Seq<u16> {
    words.subrange(frame_offset(words, i, k), frame_offset(words, i, k) + frame_len(words, i))
}

/// The header of sprite `i` lies in the atlas, and so do its three frames.
pub open spec fn header_ok(words: Seq<u16>, i: int) -> bool {
    &&& 0 <= i
    &&& 4 * i + 4 <= words.len()
    &&& forall|k: int|
        0 <= k < 3 ==> frame_offset(words, i, k) + frame_len(words, i) <= words.len()
}

/// Every sprite of the atlas has a header that lies in it.
pub open spec fn atlas_ok(words: Seq<u16>) -> bool {
    forall|i: int| 0 <= i < NUM_SPRITES ==> header_ok(words, i)
}

/// Pixel data of one species: a size and three row-major frames of
/// `width * height` colors each, borrowed from the atlas.
#[derive(Clone, Copy)]
pub struct Sprite<'a> {
    pub size: Size,
    pub frames: [&'a [u16]; NUM_FRAMES],
}

/// What sprite `s` shows at `(x, y)` of its bounding box in frame `k`.
pub open spec fn sprite_sample(s: Sprite, x: int, y: int, k: int) -> PointValue {
    let sx = x - FUDGE_FACTOR;
    let sy = y - FUDGE_FACTOR;
    if sx < 0 || sy < 0 || sx >= s.size.width || sy >= s.size.height {
        PointValue::Transparent
    } else {
        let c = s.frames@[k]@[sx + sy * s.size.width];
        if c == TRANSPARENT {
            PointValue::Transparent
        } else {
            PointValue::Opaque(c)
        }
    }
}

/// A sprite shows nothing outside its pixel rectangle: every point whose
/// coordinates, less the margin, fall outside `[0, width) x [0, height)` is
/// transparent, in every frame.
pub proof fn lemma_outside_transparent(s: Sprite, x: int, y: int, k: int)
    requires
        !(0 <= x - FUDGE_FACTOR < s.size.width && 0 <= y - FUDGE_FACTOR < s.size.height),
    ensures
        sprite_sample(s, x, y, k) == PointValue::Transparent,
{
}

impl<'a> Sprite<'a> {
    /// Sizes of at most 255 and three frames of `width * height` words.
    pub open spec fn wf(&self) -> bool {
        &&& self.size.width <= 255
        &&& self.size.height <= 255
        &&& forall|k: int|
            0 <= k < 3 ==> (#[trigger] self.frames@[k])@.len() == self.size.width
                * self.size.height
    }

    /// The sprite that header `i` of the atlas describes.
    pub open spec fn decodes(&self, words: Seq<u16>, i: int) -> bool {
        &&& self.size.width == sprite_width(words, i)
        &&& self.size.height == sprite_height(words, i)
        &&& forall|k: int| 0 <= k < 3 ==> (#[trigger] self.frames@[k])@ == frame_words(words, i, k)
    }

    /// Looks up what the sprite shows at `pt` of its bounding box in
    /// animation frame `animation`.
    pub fn get_point(&self, pt: &Point, animation: u8) -> (r: PointValue)
        requires
            self.wf(),
            animation < 3,
            pt.x > i32::MIN,
            pt.y > i32::MIN,
        ensures
            r == sprite_sample(*self, pt.x as int, pt.y as int, animation as int),
    {
        let x = pt.x - FUDGE_FACTOR;
        let y = pt.y - FUDGE_FACTOR;
        if x < 0 || y < 0 || x as i64 >= self.size.width as i64 || y as i64 >= self.size.height as i64 {
            PointValue::Transparent
        } else {
            let x: usize = x as usize;
            let y: usize = y as usize;
            let width: usize = self.size.width as usize;
            proof {
                assert(y * width < 255 * 255) by (nonlinear_arith)
                    requires y < self.size.height, width == self.size.width,
                        self.size.width <= 255, self.size.height <= 255;
                assert(x + y * width < width * self.size.height) by (nonlinear_arith)
                    requires x < width, y + 1 <= self.size.height;
            }
            let idx: usize = x + y * width;
            let frame_no: usize = animation as usize;
            let frame: &[u16] = self.frames[frame_no];
            let c = frame[idx];
            if c == TRANSPARENT {
                PointValue::Transparent
            } else {
                PointValue::Opaque(c)
            }
        }
    }

    /// Decodes sprite `sprite_num` of the atlas without copying its frames.
    pub fn make_sprite(sprite_num: usize, sprite_data: &'a [u16]) -> (r: Sprite<'a>)
        requires
            header_ok(sprite_data@, sprite_num as int),
        ensures
            r.wf(),
            r.decodes(sprite_data@, sprite_num as int),
    {
        let total: usize = sprite_data.len();
        assert(4 * sprite_num + 4 <= total);
        let header_index = 4 * sprite_num;
        let width_height = sprite_data[header_index];
        let width = width_height >> 8;
        let height = width_height & 0xff;
        proof {
            assert(width <= 255 && height <= 255) by (bit_vector)
                requires width == width_height >> 8u16, height == width_height & 0xffu16;
            assert(width * height <= 255 * 255) by (nonlinear_arith)
                requires width <= 255, height <= 255;
        }
        let num_words: usize = width as usize * height as usize;
        let empty: &[u16] = &[];
        let mut frames: [&'a [u16]; NUM_FRAMES] = [empty, empty, empty];
        let mut frame: usize = 0;
        while frame < NUM_FRAMES
            invariant
                frame <= NUM_FRAMES,
                header_ok(sprite_data@, sprite_num as int),
                header_index == 4 * sprite_num,
                width == sprite_width(sprite_data@, sprite_num as int),
                height == sprite_height(sprite_data@, sprite_num as int),
                num_words == width * height,
                forall|k: int|
                    0 <= k < frame ==> (#[trigger] frames@[k])@ == frame_words(
                        sprite_data@,
                        sprite_num as int,
                        k,
                    ),
            decreases NUM_FRAMES - frame,
        {
            let frame_index: usize = sprite_data[header_index + frame + 1] as usize;
            assert(frame_offset(sprite_data@, sprite_num as int, frame as int) + frame_len(
                sprite_data@,
                sprite_num as int,
            ) <= sprite_data@.len());
            frames[frame] = slice_range(sprite_data, frame_index, frame_index + num_words);
            frame = frame + 1;
        }
        Sprite { size: Size::new(width as u32, height as u32), frames }
    }
}

/// Whether header `i` and the three frames it names lie in the atlas.
pub fn check_header(words: &[u16], i: usize) -> (r: bool)
    requires
        i < NUM_SPRITES,
    ensures
        r == header_ok(words@, i as int),
{
    let total: usize = words.len();
    if total < 4 || 4 * i > total - 4 {
        return false;
    }
    let width_height = words[4 * i];
    let width = width_height >> 8;
    let height = width_height & 0xff;
    proof {
        assert(width <= 255 && height <= 255) by (bit_vector)
            requires width == width_height >> 8u16, height == width_height & 0xffu16;
        assert(width * height <= 255 * 255) by (nonlinear_arith)
            requires width <= 255, height <= 255;
    }
    let num_words: usize = width as usize * height as usize;
    let mut k: usize = 0;
    while k < NUM_FRAMES
        invariant
            k <= NUM_FRAMES,
            4 * i + 4 <= total,
            total == words@.len(),
            num_words == frame_len(words@, i as int),
            forall|j: int|
                0 <= j < k ==> #[trigger] frame_offset(words@, i as int, j) + frame_len(
                    words@,
                    i as int,
                ) <= words@.len(),
        decreases NUM_FRAMES - k,
    {
        let offset: usize = words[4 * i + 1 + k] as usize;
        if num_words > total || offset > total - num_words {
            assert(frame_offset(words@, i as int, k as int) + frame_len(words@, i as int)
                > words@.len());
            return false;
        }
        k = k + 1;
    }
    true
}

/// Whether every header of the atlas, and every frame it names, lies in it.
pub fn check_atlas(words: &[u16]) -> (r: bool)
    ensures
        r == atlas_ok(words@),
{
    let mut i: usize = 0;
    while i < NUM_SPRITES
        invariant
            i <= NUM_SPRITES,
            forall|j: int| 0 <= j < i ==> #[trigger] header_ok(words@, j),
        decreases NUM_SPRITES - i,
    {
        if !check_header(words, i) {
            return false;
        }
        i = i + 1;
    }
    true
}

/// Frame `k` of sprite `i` and frame `l` of sprite `j` occupy disjoint word
/// ranges of the atlas.
pub open spec fn frames_apart(words: Seq<u16>, i: int, k: int, j: int, l: int) -> bool {
    ||| frame_offset(words, i, k) + frame_len(words, i) <= frame_offset(words, j, l)
    ||| frame_offset(words, j, l) + frame_len(words, j) <= frame_offset(words, i, k)
}

/// No frame of one sprite shares a word with a frame of another sprite.
pub open spec fn atlas_disjoint(words: Seq<u16>) -> bool {
    forall|i: int, j: int, k: int, l: int|
        0 <= i < j < NUM_SPRITES && 0 <= k < 3 && 0 <= l < 3 ==> #[trigger] frames_apart(
            words,
            i,
            k,
            j,
            l,
        )
}

/// The word range `[start, end)` of frame `k` of sprite `i`.
fn frame_range(words: &[u16], i: usize, k: usize) -> (r: (usize, usize))
    requires
        header_ok(words@, i as int),
        k < 3,
    ensures
        r.0 == frame_offset(words@, i as int, k as int),
        r.1 == frame_offset(words@, i as int, k as int) + frame_len(words@, i as int),
{
    let total: usize = words.len();
    assert(4 * i + 4 <= total);
    let width_height = words[4 * i];
    let width = width_height >> 8;
    let height = width_height & 0xff;
    proof {
        assert(width <= 255 && height <= 255) by (bit_vector)
            requires width == width_height >> 8u16, height == width_height & 0xffu16;
        assert(width * height <= 255 * 255) by (nonlinear_arith)
            requires width <= 255, height <= 255;
    }
    let start: usize = words[4 * i + 1 + k] as usize;
    assert(frame_offset(words@, i as int, k as int) + frame_len(words@, i as int) <= total);
    (start, start + width as usize * height as usize)
}

/// Whether every frame of sprite `i` is apart from every frame of sprite `j`.
fn sprites_apart(words: &[u16], i: usize, j: usize) -> (r: bool)
    requires
        atlas_ok(words@),
        i < NUM_SPRITES,
        j < NUM_SPRITES,
    ensures
        r == forall|k: int, l: int|
            0 <= k < 3 && 0 <= l < 3 ==> #[trigger] frames_apart(words@, i as int, k, j as int, l),
{
    let mut k: usize = 0;
    while k < NUM_FRAMES
        invariant
            atlas_ok(words@),
            i < NUM_SPRITES,
            j < NUM_SPRITES,
            k <= NUM_FRAMES,
            forall|a: int, b: int|
                0 <= a < k && 0 <= b < 3 ==> #[trigger] frames_apart(words@, i as int, a, j as int, b),
        decreases NUM_FRAMES - k,
    {
        let mut l: usize = 0;
        while l < NUM_FRAMES
            invariant
                atlas_ok(words@),
                i < NUM_SPRITES,
                j < NUM_SPRITES,
                k < NUM_FRAMES,
                l <= NUM_FRAMES,
                forall|a: int, b: int|
                    0 <= a < k && 0 <= b < 3 ==> #[trigger] frames_apart(
                        words@,
                        i as int,
                        a,
                        j as int,
                        b,
                    ),
                forall|b: int| 0 <= b < l ==> #[trigger] frames_apart(words@, i as int, k as int, j as int, b),
            decreases NUM_FRAMES - l,
        {
            assert(header_ok(words@, i as int));
            assert(header_ok(words@, j as int));
            let (s1, e1) = frame_range(words, i, k);
            let (s2, e2) = frame_range(words, j, l);
            if !(e1 <= s2 || e2 <= s1) {
                assert(!frames_apart(words@, i as int, k as int, j as int, l as int));
                return false;
            }
            l = l + 1;
        }
        k = k + 1;
    }
    true
}

/// Whether frames of distinct sprites never share a word of the atlas.
pub fn check_disjoint(words: &[u16]) -> (r: bool)
    requires
        atlas_ok(words@),
    ensures
        r == atlas_disjoint(words@),
{
    let mut i: usize = 0;
    while i < NUM_SPRITES
        invariant
            atlas_ok(words@),
            i <= NUM_SPRITES,
            forall|a: int, b: int, k: int, l: int|
                0 <= a < i && a < b < NUM_SPRITES && 0 <= k < 3 && 0 <= l < 3
                    ==> #[trigger] frames_apart(words@, a, k, b, l),
        decreases NUM_SPRITES - i,
    {
        let mut j: usize = i + 1;
        while j < NUM_SPRITES
            invariant
                atlas_ok(words@),
                i < NUM_SPRITES,
                i < j <= NUM_SPRITES,
                forall|a: int, b: int, k: int, l: int|
                    0 <= a < i && a < b < NUM_SPRITES && 0 <= k < 3 && 0 <= l < 3
                        ==> #[trigger] frames_apart(words@, a, k, b, l),
                forall|b: int, k: int, l: int|
                    i < b < j && 0 <= k < 3 && 0 <= l < 3 ==> #[trigger] frames_apart(
                        words@,
                        i as int,
                        k,
                        b,
                        l,
                    ),
            decreases NUM_SPRITES - j,
        {
            if !sprites_apart(words, i, j) {
                return false;
            }
            j = j + 1;
        }
        i = i + 1;
    }
    true
}

/// Two sprites decoded from distinct headers of a disjoint atlas have frames
/// that are views of disjoint word ranges, each as long as the sprite's area.
pub proof fn lemma_decoded_sprites_apart(
    words: Seq<u16>,
    s: Sprite,
    t: Sprite,
    i: int,
    j: int,
    k: int,
    l: int,
)
    requires
        atlas_ok(words),
        atlas_disjoint(words),
        0 <= i < j < NUM_SPRITES,
        0 <= k < 3,
        0 <= l < 3,
        s.decodes(words, i),
        t.decodes(words, j),
    ensures
        s.frames@[k]@.len() == s.size.width * s.size.height,
        t.frames@[l]@.len() == t.size.width * t.size.height,
        s.frames@[k]@ == words.subrange(frame_offset(words, i, k), frame_offset(words, i, k) + s.frames@[k]@.len()),
        t.frames@[l]@ == words.subrange(frame_offset(words, j, l), frame_offset(words, j, l) + t.frames@[l]@.len()),
        frame_offset(words, i, k) + s.frames@[k]@.len() <= frame_offset(words, j, l)
            || frame_offset(words, j, l) + t.frames@[l]@.len() <= frame_offset(words, i, k),
{
    assert(header_ok(words, i));
    assert(header_ok(words, j));
    assert(frames_apart(words, i, k, j, l));
}

/// The words `data[start..end]`, borrowed.
fn slice_range<'a>(data: &'a [u16], start: usize, end: usize) -> (r: &'a [u16])
    requires
        start <= end <= data@.len(),
    ensures
        r@ == data@.subrange(start as int, end as int),
{
    &data[start..end]
}

} // verus!
