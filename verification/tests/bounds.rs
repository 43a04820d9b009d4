use game_growth::bounds::{Bounds2, Vec2};

#[test]
fn from_units_doubles() {
    assert_eq!(Vec2::from_units(-32, 32), Vec2 { x: -64, y: 64 });
    assert_eq!(Vec2::from_units(0, 0), Vec2::new(0, 0));
    assert_eq!(Vec2::from_units(i64::MAX, i64::MIN).x, 2 * (i64::MAX as i128));
    assert_eq!(Vec2::from_units(i64::MAX, i64::MIN).y, 2 * (i64::MIN as i128));
}

#[test]
fn splat_fills_both_coordinates() {
    assert_eq!(Vec2::splat(128), Vec2 { x: 128, y: 128 });
}

#[test]
fn in_bounds_holds_corners_and_edges() {
    let bounds = Bounds2 { position: Vec2::from_units(10, 20), size: Vec2::from_units(64, 32) };
    assert!(bounds.in_bounds(Vec2::from_units(10, 20)));
    assert!(bounds.in_bounds(Vec2::from_units(74, 52)));
    assert!(bounds.in_bounds(Vec2::from_units(10, 52)));
    assert!(bounds.in_bounds(Vec2::from_units(42, 36)));
    assert!(!bounds.in_bounds(Vec2::from_units(9, 20)));
    assert!(!bounds.in_bounds(Vec2::from_units(10, 19)));
    assert!(!bounds.in_bounds(Vec2::from_units(75, 52)));
    assert!(!bounds.in_bounds(Vec2::from_units(74, 53)));
}

#[test]
fn in_bounds_tells_half_units_apart() {
    let bounds = Bounds2 { position: Vec2::new(1, 1), size: Vec2::new(3, 3) };
    assert!(bounds.in_bounds(Vec2::new(1, 1)));
    assert!(bounds.in_bounds(Vec2::new(4, 4)));
    assert!(!bounds.in_bounds(Vec2::new(0, 1)));
    assert!(!bounds.in_bounds(Vec2::new(5, 4)));
}

#[test]
fn in_bounds_centered_is_around_the_position() {
    let bounds = Bounds2 { position: Vec2::from_units(-32, -32), size: Vec2::from_units(64, 64) };
    assert!(bounds.in_bounds_centered(Vec2::from_units(-32, -32)));
    assert!(bounds.in_bounds_centered(Vec2::from_units(-64, -64)));
    assert!(bounds.in_bounds_centered(Vec2::from_units(0, 0)));
    assert!(bounds.in_bounds_centered(Vec2::from_units(-64, 0)));
    assert!(!bounds.in_bounds_centered(Vec2::from_units(1, 0)));
    assert!(!bounds.in_bounds_centered(Vec2::from_units(0, -65)));
    assert!(!bounds.in_bounds_centered(Vec2::new(1, 0)));
    assert!(!bounds.in_bounds(Vec2::from_units(-33, -32)));
}

#[test]
fn in_bounds_centered_with_an_odd_size() {
    let bounds = Bounds2 { position: Vec2::new(0, 0), size: Vec2::new(3, 3) };
    assert!(bounds.in_bounds_centered(Vec2::new(1, 1)));
    assert!(bounds.in_bounds_centered(Vec2::new(-1, -1)));
    assert!(!bounds.in_bounds_centered(Vec2::new(2, 0)));
    assert!(!bounds.in_bounds_centered(Vec2::new(0, -2)));
}

#[test]
fn centered_test_is_the_corner_test_moved_by_half_the_size() {
    let centered = Bounds2 { position: Vec2::new(7, -3), size: Vec2::new(10, 4) };
    let moved = Bounds2 { position: Vec2::new(7 - 5, -3 - 2), size: Vec2::new(10, 4) };
    for x in -10..30 {
        for y in -12..8 {
            let point = Vec2::new(x, y);
            assert_eq!(centered.in_bounds_centered(point), moved.in_bounds(point));
        }
    }
}

#[test]
fn empty_size_holds_only_the_position() {
    let bounds = Bounds2 { position: Vec2::new(5, 5), size: Vec2::new(0, 0) };
    assert!(bounds.in_bounds(Vec2::new(5, 5)));
    assert!(bounds.in_bounds_centered(Vec2::new(5, 5)));
    assert!(!bounds.in_bounds(Vec2::new(6, 5)));
    assert!(!bounds.in_bounds_centered(Vec2::new(5, 4)));
}

#[test]
fn negative_size_holds_nothing() {
    let bounds = Bounds2 { position: Vec2::new(5, 5), size: Vec2::new(-2, 4) };
    for x in 0..10 {
        assert!(!bounds.in_bounds(Vec2::new(x, 6)));
        assert!(!bounds.in_bounds_centered(Vec2::new(x, 5)));
    }
    let lowest = Bounds2 { position: Vec2::new(0, 0), size: Vec2::splat(i128::MIN) };
    assert!(!lowest.in_bounds(Vec2::new(0, 0)));
    assert!(!lowest.in_bounds_centered(Vec2::new(0, 0)));
}

#[test]
fn tests_at_the_ends_of_the_number_range() {
    let all = Bounds2 { position: Vec2::splat(i128::MIN), size: Vec2::splat(i128::MAX) };
    assert!(all.in_bounds(Vec2::splat(i128::MIN)));
    assert!(all.in_bounds(Vec2::new(-1, -1)));
    assert!(!all.in_bounds(Vec2::new(0, 0)));
    assert!(!all.in_bounds(Vec2::splat(i128::MAX)));
    let high = Bounds2 { position: Vec2::splat(i128::MAX), size: Vec2::splat(i128::MAX) };
    assert!(high.in_bounds(Vec2::splat(i128::MAX)));
    assert!(!high.in_bounds(Vec2::splat(i128::MAX - 1)));
    assert!(high.in_bounds_centered(Vec2::splat(i128::MAX)));
    assert!(!high.in_bounds_centered(Vec2::splat(i128::MIN)));
    assert!(!high.in_bounds_centered(Vec2::new(0, 0)));
    let wide = Bounds2 { position: Vec2::new(0, 0), size: Vec2::splat(i128::MAX) };
    assert!(wide.in_bounds_centered(Vec2::splat(i128::MAX / 2)));
    assert!(!wide.in_bounds_centered(Vec2::splat(i128::MAX / 2 + 1)));
    assert!(wide.in_bounds_centered(Vec2::splat(-(i128::MAX / 2))));
    assert!(!wide.in_bounds_centered(Vec2::splat(-(i128::MAX / 2) - 1)));
}
