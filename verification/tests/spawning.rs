use arena_motion::collide::sprites_touching;
use arena_motion::spawn::{gen_random_pos, place_coord, sound_index};

#[test]
fn spawn_positions_stay_fully_inside_the_arena() {
    // every draw lands at least half the footprint from every edge
    for _ in 0..200 {
        let (x, y) = gen_random_pos(800, 600, 64);
        assert!(32 <= x && x <= 768);
        assert!(32 <= y && y <= 568);
    }
}

#[test]
fn spawn_with_footprint_equal_to_arena_pins_center() {
    let (x, y) = gen_random_pos(100, 100, 100);
    assert_eq!((x, y), (50, 50));
}

#[test]
fn place_coord_reduces_the_draw_into_the_range() {
    // lo + draw % width: the draw is not handed back unchanged
    assert_eq!(place_coord(0, 10, 12345), 12345 % 11);
    assert_eq!(place_coord(32, 768, 0), 32);
    assert_eq!(place_coord(32, 768, 737), 32);
    assert_eq!(place_coord(32, 768, 736), 768);
    assert_eq!(place_coord(5, 5, 987654321), 5);
}

#[test]
fn sound_index_is_always_in_range() {
    for _ in 0..100 {
        assert!(sound_index(2) < 2);
    }
    assert_eq!(sound_index(1), 0);
}

#[test]
fn touching_at_exact_threshold() {
    // threshold is half the summed footprints: 64 for two 64-wide sprites
    assert!(sprites_touching(0, 0, 64, 0, 64, 64));
    assert!(sprites_touching(0, 0, 0, 64, 64, 64));
    assert!(!sprites_touching(0, 0, 65, 0, 64, 64));
}

#[test]
fn touching_measures_euclidean_distance() {
    // (48, 36) is 60 away: within 64; (52, 39) is 65 away: not
    assert!(sprites_touching(0, 0, 48, 36, 64, 64));
    assert!(!sprites_touching(0, 0, 52, 39, 64, 64));
    // mixed sizes: threshold (64 + 32) / 2 = 48
    assert!(sprites_touching(100, 100, 148, 100, 64, 32));
    assert!(!sprites_touching(100, 100, 149, 100, 64, 32));
}

#[test]
fn overlapping_sprites_touch() {
    assert!(sprites_touching(400, 300, 400, 300, 64, 64));
    assert!(sprites_touching(400, 300, 401, 299, 64, 64));
}
