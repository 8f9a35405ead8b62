use fishtank::fish::Fish;
use fishtank::geometry::{cvt, Dir, Point, PointValue, Size};
use fishtank::sprite::{check_atlas, check_disjoint, check_header, Sprite, NUM_SPRITES, TRANSPARENT};
use fishtank::stream::{TankIterator, BACKGROUND};
use fishtank::tank::{check_box, check_screen, FishTank, NUM_FISH};
use rand_pcg::Pcg32;

const SEED: u64 = 0x1badd00d8badf00d;

fn screen() -> Size {
    Size::new(160, 80)
}

fn sprite_dims(i: usize) -> (u16, u16) {
    (3 + (i % 3) as u16, 2 + (i % 2) as u16)
}

/// An atlas of ten sprites, each with three frames of its own; the first
/// pixel of every frame is transparent.
fn atlas() -> Vec<u16> {
    let mut words = vec![0u16; 4 * NUM_SPRITES];
    for i in 0..NUM_SPRITES {
        let (w, h) = sprite_dims(i);
        words[4 * i] = (w << 8) | h;
        for k in 0..3 {
            words[4 * i + 1 + k] = words.len() as u16;
            for p in 0..(w * h) {
                if p == 0 {
                    words.push(TRANSPARENT);
                } else {
                    words.push(0x1000 * (i as u16 + 1) + 0x100 * k as u16 + p);
                }
            }
        }
    }
    words
}

fn tank(words: &[u16]) -> FishTank<'_> {
    FishTank::new(screen(), SEED, words)
}

fn emitted(t: &FishTank) -> Vec<(Point, u16)> {
    let mut it = TankIterator::new(t);
    let mut out = Vec::new();
    while let Some(p) = it.next() {
        out.push(p);
    }
    out
}

#[test]
fn cvt_keeps_value() {
    assert_eq!(cvt(0), 0);
    assert_eq!(cvt(160), 160);
    assert_eq!(cvt(i32::MAX as u32), i32::MAX);
}

#[test]
fn decode_gives_three_frames_of_sprite_size() {
    let words = atlas();
    for i in 0..NUM_SPRITES {
        let s = Sprite::make_sprite(i, &words);
        let (w, h) = sprite_dims(i);
        assert_eq!(s.size, Size::new(w as u32, h as u32));
        for k in 0..3 {
            assert_eq!(s.frames[k].len(), (w * h) as usize);
            let off = words[4 * i + 1 + k] as usize;
            assert_eq!(s.frames[k], &words[off..off + (w * h) as usize]);
        }
    }
}

#[test]
fn decode_distinct_sprites_do_not_overlap() {
    let words = atlas();
    let sprites: Vec<Sprite> = (0..NUM_SPRITES).map(|i| Sprite::make_sprite(i, &words)).collect();
    let base = words.as_ptr() as usize;
    let range = |f: &[u16]| {
        let start = (f.as_ptr() as usize - base) / 2;
        (start, start + f.len())
    };
    for i in 0..NUM_SPRITES {
        for j in 0..NUM_SPRITES {
            if i == j {
                continue;
            }
            for a in sprites[i].frames.iter() {
                for b in sprites[j].frames.iter() {
                    let (s1, e1) = range(a);
                    let (s2, e2) = range(b);
                    assert!(e1 <= s2 || e2 <= s1);
                }
            }
        }
    }
}

#[test]
fn atlas_checks() {
    let words = atlas();
    assert!(check_atlas(&words));
    assert!(check_header(&words, 9));
    let short = &words[..words.len() - 1];
    assert!(!check_atlas(short));
    assert!(!check_header(short, 9));
    assert!(check_header(short, 0));
    assert!(!check_atlas(&words[..20]));
    assert!(!check_atlas(&[]));
}

#[test]
fn sprite_sample_outside_is_transparent() {
    let words = atlas();
    let s = Sprite::make_sprite(2, &words); // 5 x 2
    for frame in 0..3u8 {
        for (x, y) in [(0, 1), (1, 0), (6, 1), (1, 3), (-4, 2), (100, 100), (0, 0)] {
            assert_eq!(s.get_point(&Point::new(x, y), frame), PointValue::Transparent);
        }
    }
}

#[test]
fn sprite_sample_inside() {
    let words = atlas();
    let s = Sprite::make_sprite(2, &words); // 5 x 2
    // the first pixel holds the sentinel
    assert_eq!(s.get_point(&Point::new(1, 1), 0), PointValue::Transparent);
    assert_eq!(s.get_point(&Point::new(2, 1), 0), PointValue::Opaque(0x3001));
    assert_eq!(s.get_point(&Point::new(5, 2), 1), PointValue::Opaque(0x3109));
    assert_eq!(s.get_point(&Point::new(1, 2), 2), PointValue::Opaque(0x3205));
}

fn fish_at(words: &[u16], species: usize, x: i32, y: i32, dir: Dir) -> Fish<'_> {
    let mut f = Fish::new(Sprite::make_sprite(species, words));
    f.upper_left = Point::new(x, y);
    f.direction = dir;
    f
}

#[test]
fn fish_new_adds_margin() {
    let words = atlas();
    let f = Fish::new(Sprite::make_sprite(1, &words)); // 4 x 3
    assert_eq!(f.size, Size::new(6, 5));
    assert_eq!(f.upper_left, Point::new(0, 0));
    assert_eq!(f.direction, Dir::Right);
    assert_eq!(f.animation, 0);
}

#[test]
fn fish_get_point_and_mirror() {
    let words = atlas();
    let right = fish_at(&words, 0, 10, 20, Dir::Right); // sprite 3 x 2, box 5 x 4
    assert_eq!(right.get_point(&Point::new(9, 21)), PointValue::OutOfRange);
    assert_eq!(right.get_point(&Point::new(15, 21)), PointValue::OutOfRange);
    assert_eq!(right.get_point(&Point::new(10, 20)), PointValue::Transparent);
    assert_eq!(right.get_point(&Point::new(12, 21)), PointValue::Opaque(0x1001));
    assert_eq!(right.get_point(&Point::new(13, 21)), PointValue::Opaque(0x1002));
    let left = fish_at(&words, 0, 10, 20, Dir::Left);
    // local x 2 mirrors to 5 - 3 = 2, local x 1 mirrors to 3
    assert_eq!(left.get_point(&Point::new(12, 21)), PointValue::Opaque(0x1001));
    assert_eq!(left.get_point(&Point::new(11, 21)), PointValue::Opaque(0x1002));
    assert_eq!(left.get_point(&Point::new(13, 21)), PointValue::Transparent);
}

#[test]
fn on_screen_edges_are_inclusive() {
    let words = atlas();
    let s = screen();
    let w = 5; // box width of species 0
    assert!(fish_at(&words, 0, -w, 10, Dir::Right).on_screen(&s));
    assert!(!fish_at(&words, 0, -w - 1, 10, Dir::Right).on_screen(&s));
    assert!(fish_at(&words, 0, 160, 10, Dir::Left).on_screen(&s));
    assert!(!fish_at(&words, 0, 161, 10, Dir::Left).on_screen(&s));
    assert!(fish_at(&words, 0, 10, -4, Dir::Left).on_screen(&s));
    assert!(!fish_at(&words, 0, 10, -5, Dir::Left).on_screen(&s));
    assert!(fish_at(&words, 0, 10, 80, Dir::Left).on_screen(&s));
    assert!(!fish_at(&words, 0, 10, 81, Dir::Left).on_screen(&s));
}

#[test]
fn place_follows_spawn_rule() {
    let words = atlas();
    let s = screen();
    let mut f = fish_at(&words, 0, 50, 50, Dir::Right);
    f.place(&s, 5, true, 7);
    assert_eq!((f.direction, f.upper_left, f.animation), (Dir::Left, Point::new(160, 7), 5));
    f.place(&s, 0, false, 75);
    assert_eq!((f.direction, f.upper_left, f.animation), (Dir::Right, Point::new(-5, 75), 0));
}

#[test]
fn step_moves_and_advances_phase() {
    let words = atlas();
    let mut f = fish_at(&words, 0, 50, 50, Dir::Left);
    f.step(true, 1);
    assert_eq!((f.upper_left, f.animation), (Point::new(49, 51), 1));
    f.direction = Dir::Right;
    f.step(true, -1);
    assert_eq!((f.upper_left, f.animation), (Point::new(50, 50), 2));
    f.step(false, 0);
    assert_eq!((f.upper_left, f.animation), (Point::new(50, 50), 3));
    f.animation = 5;
    f.step(false, 0);
    assert_eq!(f.animation, 0);
}

#[test]
fn randomize_spawns_past_the_far_edge() {
    let words = atlas();
    let s = screen();
    let mut rng = Pcg32::new(7, 11);
    let mut seen_left = false;
    let mut seen_right = false;
    for _ in 0..200 {
        let mut f = fish_at(&words, 1, 40, 40, Dir::Right); // box 6 x 5
        f.randomize(&s, &mut rng);
        assert!(f.animation < 6);
        assert!(f.upper_left.y >= 0 && f.upper_left.y < 80 - 5);
        match f.direction {
            Dir::Left => {
                seen_left = true;
                assert_eq!(f.upper_left.x, 160);
            }
            Dir::Right => {
                seen_right = true;
                assert_eq!(f.upper_left.x, -6);
            }
        }
        f.randomize_x(&s, &mut rng);
        assert!(f.upper_left.x >= 0 && f.upper_left.x < 160 - 6);
    }
    assert!(seen_left && seen_right);
}

#[test]
fn tank_new_places_fish_on_screen() {
    let words = atlas();
    let t = tank(&words);
    assert_eq!(t.fish.len(), NUM_FISH);
    assert_eq!(t.size, screen());
    for (i, f) in t.fish.iter().enumerate() {
        let (w, h) = sprite_dims(i % NUM_SPRITES);
        assert_eq!(f.size, Size::new(w as u32 + 2, h as u32 + 2));
        assert!(f.upper_left.x >= 0 && f.upper_left.x < 160 - f.size.width as i32);
        assert!(f.upper_left.y >= 0 && f.upper_left.y < 80 - f.size.height as i32);
        assert!(f.animation < 6);
    }
}

#[test]
fn tank_lowest_index_wins() {
    let words = atlas();
    let mut t = tank(&words);
    for i in 2..NUM_FISH {
        t.fish[i].upper_left = Point::new(120, 60);
    }
    for i in 0..2 {
        t.fish[i].upper_left = Point::new(10, 10);
        t.fish[i].direction = Dir::Right;
        t.fish[i].animation = 0;
    }
    let p = Point::new(12, 11);
    assert_eq!(t.fish[0].get_point(&p), PointValue::Opaque(0x1001));
    assert_eq!(t.fish[1].get_point(&p), PointValue::Opaque(0x2001));
    assert_eq!(t.get_point(&p), PointValue::Opaque(0x1001));
    // where fish 0 is transparent, fish 1 shows through
    let q = Point::new(14, 11);
    assert_eq!(t.fish[0].get_point(&q), PointValue::Transparent);
    assert_eq!(t.get_point(&q), PointValue::Opaque(0x2003));
    // inside a box but on its margin
    assert_eq!(t.get_point(&Point::new(10, 10)), PointValue::Transparent);
    assert_eq!(t.get_point(&Point::new(0, 0)), PointValue::OutOfRange);
}

#[test]
fn swim_is_deterministic() {
    let words = atlas();
    let mut a = tank(&words);
    let mut b = tank(&words);
    for _ in 0..500 {
        a.swim();
        b.swim();
    }
    for i in 0..NUM_FISH {
        assert_eq!(a.fish[i].upper_left, b.fish[i].upper_left);
        assert_eq!(a.fish[i].direction, b.fish[i].direction);
        assert_eq!(a.fish[i].animation, b.fish[i].animation);
    }
    let c = FishTank::new(screen(), SEED + 1, &words);
    let differs = (0..NUM_FISH).any(|i| {
        c.fish[i].upper_left != FishTank::new(screen(), SEED, &words).fish[i].upper_left
    });
    assert!(differs);
}

#[test]
fn swim_keeps_fish_visible() {
    let words = atlas();
    let mut t = tank(&words);
    for _ in 0..2000 {
        t.swim();
        for f in t.fish.iter() {
            assert!(f.on_screen(&t.size));
            assert!(f.animation < 6);
        }
    }
}

#[test]
fn pixel_stream_covers_exactly_the_boxes() {
    let words = atlas();
    let mut t = tank(&words);
    for _ in 0..37 {
        t.swim();
    }
    let out = emitted(&t);
    for pair in out.windows(2) {
        let (a, b) = (pair[0].0, pair[1].0);
        assert!(a.y < b.y || (a.y == b.y && a.x < b.x));
    }
    let mut expected = Vec::new();
    for y in 0..80 {
        for x in 0..160 {
            let inside = t.fish.iter().any(|f| {
                x >= f.upper_left.x
                    && y >= f.upper_left.y
                    && x < f.upper_left.x + f.size.width as i32
                    && y < f.upper_left.y + f.size.height as i32
            });
            if inside {
                expected.push(Point::new(x, y));
            }
        }
    }
    let got: Vec<Point> = out.iter().map(|(p, _)| *p).collect();
    assert_eq!(got, expected);
    for (p, c) in out {
        match t.get_point(&p) {
            PointValue::Opaque(color) => assert_eq!(c, color),
            PointValue::Transparent => assert_eq!(c, BACKGROUND),
            PointValue::OutOfRange => panic!("uncovered point emitted"),
        }
    }
}

#[test]
fn pixel_stream_ends_and_stays_ended() {
    let words = atlas();
    let t = tank(&words);
    let mut it = TankIterator::new(&t);
    while it.next().is_some() {}
    assert_eq!(it.position, Point::new(0, 80));
    assert!(it.next().is_none());
}

#[test]
fn swim_respawns_fish_that_left() {
    let words = atlas();
    let mut t = tank(&words);
    t.fish[3].upper_left.x = 170;
    assert!(!t.fish[3].on_screen(&t.size));
    t.swim();
    let f = t.fish[3];
    assert!(f.on_screen(&t.size));
    match f.direction {
        Dir::Left => assert_eq!(f.upper_left.x, 160),
        Dir::Right => assert_eq!(f.upper_left.x, -(f.size.width as i32)),
    }
    assert!(f.upper_left.y >= 0 && f.upper_left.y < 80 - f.size.height as i32);
}

#[test]
fn animation_phase_wraps_after_six_ticks() {
    let words = atlas();
    let big = Size::new(1000, 1000);
    let mut rng = Pcg32::new(3, 5);
    let mut f = fish_at(&words, 4, 500, 500, Dir::Right);
    for n in 1..=6u8 {
        f.swim(&big, &mut rng);
        assert_eq!(f.animation, n % 6);
    }
    assert_eq!(f.animation, 0);
}

#[test]
fn try_new_refuses_bad_input() {
    let words = atlas();
    assert!(FishTank::try_new(screen(), SEED, &words).is_some());
    assert!(FishTank::try_new(screen(), SEED, &words[..words.len() - 1]).is_none());
    // species 2 has a box 7 wide and species 1 one 5 high
    assert!(FishTank::try_new(Size::new(7, 80), SEED, &words).is_none());
    assert!(FishTank::try_new(Size::new(8, 6), SEED, &words).is_some());
    assert!(FishTank::try_new(Size::new(8, 5), SEED, &words).is_none());
    assert!(!check_screen(&Size::new(8, 5), &words));
    assert!(check_screen(&Size::new(8, 6), &words));
}

#[test]
fn check_box_limits() {
    assert!(check_box(&Size::new(160, 80), &Size::new(5, 4)));
    assert!(!check_box(&Size::new(5, 80), &Size::new(5, 4)));
    assert!(!check_box(&Size::new(160, 80), &Size::new(0, 4)));
    assert!(!check_box(&Size::new(i32::MAX as u32, 80), &Size::new(5, 4)));
    assert!(check_box(&Size::new(i32::MAX as u32 - 7, 80), &Size::new(5, 4)));
}

#[test]
fn from_bytes_reads_words() {
    let words = atlas();
    let bytes: Vec<u8> = words.iter().flat_map(|w| w.to_ne_bytes()).collect();
    let t = FishTank::from_bytes(screen(), SEED, &bytes).expect("aligned atlas");
    let reference = tank(&words);
    for i in 0..NUM_FISH {
        assert_eq!(t.fish[i].upper_left, reference.fish[i].upper_left);
        assert_eq!(t.fish[i].size, reference.fish[i].size);
    }
    assert!(FishTank::from_bytes(screen(), SEED, &bytes[..bytes.len() - 1]).is_none());
    assert!(FishTank::from_bytes(screen(), SEED, &[]).is_none());
}

#[test]
fn disjoint_atlas_check() {
    let mut words = atlas();
    assert!(check_disjoint(&words));
    // frames of one sprite may share their words
    words[4 * 5 + 2] = words[4 * 5 + 1];
    words[4 * 5 + 3] = words[4 * 5 + 1];
    assert!(check_disjoint(&words));
    // the last frame of sprite 9 now starts inside a frame of sprite 8
    words[4 * 9 + 3] = words[4 * 8 + 1] + 1;
    assert!(check_atlas(&words));
    assert!(!check_disjoint(&words));
}
