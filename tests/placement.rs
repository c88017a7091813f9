use crawlers::canvas::{position_from_samples, remap_sample, workgroups, Coord, IMAGE_HEIGHT, IMAGE_WIDTH, NOISE_SCALE};

#[test]
fn remap_ends_of_noise_range() {
    assert_eq!(remap_sample(-NOISE_SCALE, IMAGE_WIDTH), 0);
    // (1 + 1) / 2 * width rounds to width itself, which folds onto the last pixel
    assert_eq!(remap_sample(NOISE_SCALE, IMAGE_WIDTH), IMAGE_WIDTH - 1);
    assert_eq!(remap_sample(NOISE_SCALE, IMAGE_HEIGHT), IMAGE_HEIGHT - 1);
}

#[test]
fn remap_middle_and_quarter_values() {
    assert_eq!(remap_sample(0, 1104), 552);
    assert_eq!(remap_sample(500_000, 1104), 828);
    assert_eq!(remap_sample(-500_000, 872), 218);
    // 0.0005 * 4 = 0.002 rounds to 0; 0.0015 * 4 = 0.006 rounds to 0
    assert_eq!(remap_sample(-999_000, 4), 0);
    // halves round up: 0.125 * 4 = 0.5 -> 1
    assert_eq!(remap_sample(-750_000, 4), 1);
}

#[test]
fn remap_clamps_samples_outside_noise_range() {
    assert_eq!(remap_sample(i32::MAX, IMAGE_WIDTH), IMAGE_WIDTH - 1);
    assert_eq!(remap_sample(i32::MIN, IMAGE_WIDTH), 0);
    assert_eq!(remap_sample(3 * NOISE_SCALE, IMAGE_HEIGHT), IMAGE_HEIGHT - 1);
}

#[test]
fn position_from_centre_samples() {
    assert_eq!(position_from_samples(0, 0), Coord { x: 552, y: 436 });
}

#[test]
fn position_is_deterministic() {
    for (sx, sy) in [(123_456, -654_321), (0, 0), (-1, 1), (999_999, -999_999)] {
        let a = position_from_samples(sx, sy);
        let b = position_from_samples(sx, sy);
        assert_eq!(a, b);
    }
}

#[test]
fn position_always_on_canvas() {
    let mut s: i32 = -1_200_000;
    while s <= 1_200_000 {
        let p = position_from_samples(s, -s);
        assert!(p.x < IMAGE_WIDTH);
        assert!(p.y < IMAGE_HEIGHT);
        s += 997;
    }
    let p = position_from_samples(i32::MAX, i32::MAX);
    assert!(p.x < IMAGE_WIDTH && p.y < IMAGE_HEIGHT);
}

#[test]
fn workgroups_divide_by_tile() {
    assert_eq!(workgroups(Coord { x: 1104, y: 872 }), Coord { x: 138, y: 109 });
    assert_eq!(workgroups(Coord { x: 7, y: 17 }), Coord { x: 0, y: 2 });
}
