use arena_motion::cap::{calc_cap, Cap, Classification};

#[test]
fn ordered_bounds_for_fitting_footprint() {
    // 800x600 arena, 64x64 footprint: min = 32, max = extent - 32
    let caps = calc_cap(&vec![800, 600], &vec![64, 64]);
    assert_eq!(caps.len(), 2);
    assert_eq!(caps[0].min, 32);
    assert_eq!(caps[0].max, 768);
    assert_eq!(caps[1].min, 32);
    assert_eq!(caps[1].max, 568);
    assert!(caps[0].min <= caps[0].max);
    assert!(caps[1].min <= caps[1].max);
}

#[test]
fn odd_footprint_rounds_half_toward_zero() {
    let caps = calc_cap(&vec![801], &vec![65]);
    assert_eq!(caps[0].min, 32);
    assert_eq!(caps[0].max, 769);
}

#[test]
fn footprint_equal_to_arena_pins_center() {
    let caps = calc_cap(&vec![100], &vec![100]);
    assert_eq!(caps[0].min, 50);
    assert_eq!(caps[0].max, 50);
}

#[test]
fn oversized_footprint_gives_degenerate_range() {
    let caps = calc_cap(&vec![800], &vec![1000]);
    assert_eq!(caps[0].min, 500);
    assert_eq!(caps[0].max, 300);
    assert!(caps[0].min > caps[0].max);
}

#[test]
fn zero_extents_are_tolerated() {
    let caps = calc_cap(&vec![0], &vec![0]);
    assert_eq!(caps[0].min, 0);
    assert_eq!(caps[0].max, 0);
}

#[test]
fn classify_within_inclusive_range() {
    let c = Cap::new(32, 768);
    assert_eq!(c.test(300), Classification::Within);
    assert_eq!(c.test(33), Classification::Within);
    assert_eq!(c.test(767), Classification::Within);
}

#[test]
fn classify_boundary_values_are_within() {
    // exactly-at-edge is not a bounce trigger
    let c = Cap::new(32, 768);
    assert_eq!(c.test(32), Classification::Within);
    assert_eq!(c.test(768), Classification::Within);
}

#[test]
fn classify_out_of_range_values() {
    let c = Cap::new(32, 768);
    assert_eq!(c.test(31), Classification::Below);
    assert_eq!(c.test(14), Classification::Below);
    assert_eq!(c.test(769), Classification::Above);
    assert_eq!(c.test(-5), Classification::Below);
}

#[test]
fn apply_is_identity_within_range() {
    let c = Cap::new(32, 768);
    assert_eq!(c.apply(300), 300);
    assert_eq!(c.apply(32), 32);
    assert_eq!(c.apply(768), 768);
}

#[test]
fn apply_clamps_out_of_range_values() {
    let c = Cap::new(32, 768);
    assert_eq!(c.apply(14), 32);
    assert_eq!(c.apply(-100), 32);
    assert_eq!(c.apply(999), 768);
}

#[test]
fn apply_on_degenerate_range_yields_min() {
    // capped from above by max first, then from below by min
    let c = Cap::new(500, 300);
    assert_eq!(c.apply(400), 500);
    assert_eq!(c.apply(0), 500);
    assert_eq!(c.apply(900), 500);
}
