use tovaras::rng::TinyRng;

#[test]
fn xorshift_sequence_from_one() {
    let mut r = TinyRng(1);
    assert_eq!(r.next_u32(), 270_369);
    assert_eq!(r.next_u32(), 67_634_689);
    assert_eq!(r.next_u32(), 2_647_435_461);
    assert_eq!(r.next_u32(), 307_599_695);
    assert_eq!(r.next_u32(), 2_398_689_233);
    assert_eq!(r.0, 2_398_689_233);
}

#[test]
fn xorshift_known_value() {
    let mut r = TinyRng(2_463_534_242);
    assert_eq!(r.next_u32(), 723_471_715);
}

#[test]
fn seed_mixes_the_mask_in() {
    assert_eq!(TinyRng::seeded(0).0, 0xA3C5_9AC3);
    assert_eq!(TinyRng::seeded(0xA3C5_9AC3).0, 0);
    assert_eq!(TinyRng::seeded(123_456_789).0, 123_456_789 ^ 0xA3C5_9AC3);
}

#[test]
fn chance_compares_the_fraction() {
    // from state 1 the draws are 270369, 67634689, 2647435461 over 2^32:
    // about 0.00006, 0.0157 and 0.616
    let mut r = TinyRng(1);
    assert!(r.chance(50));
    assert!(r.chance(2));
    assert!(!r.chance(50));
    assert_eq!(r.0, 2_647_435_461);
    let mut r = TinyRng(67_634_689);
    assert!(!r.chance(61));
    let mut r = TinyRng(67_634_689);
    assert!(r.chance(62));
    let mut r = TinyRng(1);
    assert!(!r.chance(0));
    let mut r = TinyRng(67_634_689);
    assert!(r.chance(100));
}

#[test]
fn range_i32_scales_the_draw() {
    // 2647435461 / 2^32 = 0.6164...
    let mut r = TinyRng(67_634_689);
    assert_eq!(r.range_i32(0, 99), 61);
    let mut r = TinyRng(67_634_689);
    assert_eq!(r.range_i32(-50, 49), 11);
    let mut r = TinyRng(67_634_689);
    assert_eq!(r.range_i32(98, 882), 98 + 483);
    let mut r = TinyRng(67_634_689);
    assert_eq!(r.range_i32(i32::MIN, i32::MAX), (-2_147_483_648i64 + 2_647_435_461) as i32);
}

#[test]
fn range_i32_without_room_draws_nothing() {
    let mut r = TinyRng(7);
    assert_eq!(r.range_i32(5, 5), 5);
    assert_eq!(r.range_i32(5, 2), 5);
    assert_eq!(r.0, 7);
}

#[test]
fn range_i32_stays_in_range() {
    let mut r = TinyRng(0xDEAD_BEEF);
    for _ in 0..5000 {
        let v = r.range_i32(-3, 4);
        assert!((-3..=4).contains(&v));
    }
    let mut r = TinyRng(0xFFFF_FFFF);
    for _ in 0..5000 {
        let v = r.range_i32(0, 1);
        assert!(v == 0 || v == 1);
    }
}

#[test]
fn range_u32_scales_the_draw() {
    let mut r = TinyRng(67_634_689);
    // 3 s + 0.6164... of 3 s
    assert_eq!(r.range_u32(3_000_000, 6_000_000), 3_000_000 + 1_849_212);
    let mut r = TinyRng(1);
    assert_eq!(r.range_u32(2_000_000, 4_000_000), 2_000_000 + 125);
    let mut r = TinyRng(1);
    assert_eq!(r.range_u32(9, 9), 9);
    assert_eq!(r.0, 270_369);
}
