use arena_motion::motion::{
    advance, key_direction, tick_entities, tick_entities_checked, tick_entity, tick_entity_checked,
    Entity,
};

const ARENA: [i64; 2] = [800, 600];
const FOOTPRINT: [i64; 2] = [64, 64];
const SPEED: i64 = 200;

fn arena() -> Vec<i64> {
    vec![ARENA[0], ARENA[1]]
}

fn footprint() -> Vec<i64> {
    vec![FOOTPRINT[0], FOOTPRINT[1]]
}

#[test]
fn advance_moves_by_speed_times_elapsed() {
    // 200 units per second over 100 ms is 20 units
    assert_eq!(advance(34, -1, 200, 100), 14);
    assert_eq!(advance(34, 1, 200, 100), 54);
    assert_eq!(advance(34, 0, 200, 100), 34);
    assert_eq!(advance(34, -1, 200, 0), 34);
}

#[test]
fn left_edge_bounce_scenario() {
    // entity at (34, 300) heading left: advanced x is 14, below the
    // x bound [32, 768], so it bounces, flips, and clamps to 32
    let mut e = Entity::new(vec![34, 300], vec![-1, 0]);
    let bounced = tick_entity(&mut e, &arena(), &footprint(), SPEED, 100);
    assert!(bounced);
    assert_eq!(e.pos, vec![32, 300]);
    assert_eq!(e.dir, vec![1, 0]);
}

#[test]
fn exactly_at_edge_is_not_a_bounce() {
    // at (32, 300), the left edge itself: the edge is inclusive, so with
    // no elapsed time nothing moves and nothing bounces
    let mut e = Entity::new(vec![32, 300], vec![-1, 0]);
    let bounced = tick_entity(&mut e, &arena(), &footprint(), SPEED, 0);
    assert!(!bounced);
    assert_eq!(e.pos, vec![32, 300]);
    assert_eq!(e.dir, vec![-1, 0]);
}

#[test]
fn corner_hit_emits_single_event() {
    // out of range on both axes in the same tick: one event, both axes flip
    let mut e = Entity::new(vec![34, 34], vec![-1, -1]);
    let bounced = tick_entity(&mut e, &arena(), &footprint(), SPEED, 100);
    assert!(bounced);
    assert_eq!(e.pos, vec![32, 32]);
    assert_eq!(e.dir, vec![1, 1]);
    // the same corner hit through the batch: one flag for the entity
    let mut batch = vec![Entity::new(vec![34, 34], vec![-1, -1])];
    let events = tick_entities(&mut batch, &arena(), &footprint(), SPEED, 100);
    assert_eq!(events, vec![true]);
}

#[test]
fn post_tick_positions_always_in_range() {
    // whatever the pre-tick state, the tick clamps into range
    let starts = [
        (vec![-500, 300], vec![1, 0]),
        (vec![2000, -2000], vec![1, 1]),
        (vec![400, 300], vec![0, 0]),
        (vec![32, 568], vec![-1, 1]),
        (vec![768, 32], vec![1, -1]),
    ];
    for (pos, dir) in starts {
        let mut e = Entity::new(pos, dir);
        tick_entity(&mut e, &arena(), &footprint(), SPEED, 100);
        assert!(32 <= e.pos[0] && e.pos[0] <= 768);
        assert!(32 <= e.pos[1] && e.pos[1] <= 568);
    }
}

#[test]
fn inward_motion_never_bounces_and_never_clamps() {
    // heading right from the center: stays in range for 100 ticks, so no
    // bounce, no clamp, and the position is exactly the free advance
    let mut e = Entity::new(vec![400, 300], vec![1, 0]);
    let mut free_x = 400;
    for _ in 0..100 {
        let bounced = tick_entity(&mut e, &arena(), &footprint(), SPEED, 10);
        free_x += 2;
        assert!(!bounced);
        assert_eq!(e.pos, vec![free_x, 300]);
        assert_eq!(e.dir, vec![1, 0]);
    }
    assert_eq!(e.pos, vec![600, 300]);
}

#[test]
fn oversized_footprint_parks_at_midpoint_without_bouncing() {
    // footprint wider than the arena: x range is degenerate, so the x axis
    // parks at the arena midpoint and never reports a bounce
    let mut e = Entity::new(vec![100, 300], vec![1, 0]);
    let sprite = vec![1000, 64];
    for _ in 0..5 {
        let bounced = tick_entity(&mut e, &arena(), &sprite, SPEED, 100);
        assert!(!bounced);
        assert_eq!(e.pos, vec![400, 300]);
        assert_eq!(e.dir, vec![1, 0]);
    }
}

#[test]
fn batch_reports_one_event_per_entity() {
    let mut batch = vec![
        Entity::new(vec![34, 300], vec![-1, 0]),
        Entity::new(vec![400, 300], vec![1, 0]),
        Entity::new(vec![760, 530], vec![1, 1]),
    ];
    let events = tick_entities(&mut batch, &arena(), &footprint(), SPEED, 100);
    assert_eq!(events, vec![true, false, true]);
    assert_eq!(batch[0].pos, vec![32, 300]);
    assert_eq!(batch[1].pos, vec![420, 300]);
    assert_eq!(batch[2].pos, vec![768, 550]);
    assert_eq!(batch[2].dir, vec![-1, 1]);
}

#[test]
fn checked_tick_matches_plain_tick_on_valid_input() {
    let mut e = Entity::new(vec![34, 300], vec![-1, 0]);
    let (ticked, bounced) = tick_entity_checked(&mut e, &arena(), &footprint(), SPEED, 100);
    assert!(ticked);
    assert!(bounced);
    assert_eq!(e.pos, vec![32, 300]);
    assert_eq!(e.dir, vec![1, 0]);
}

#[test]
fn checked_tick_skips_malformed_entity() {
    // a one-axis entity in a two-axis arena is skipped, unchanged
    let mut e = Entity::new(vec![34], vec![-1]);
    let (ticked, bounced) = tick_entity_checked(&mut e, &arena(), &footprint(), SPEED, 100);
    assert!(!ticked);
    assert!(!bounced);
    assert_eq!(e.pos, vec![34]);
    assert_eq!(e.dir, vec![-1]);
}

#[test]
fn checked_tick_rejects_negative_elapsed_time() {
    let mut e = Entity::new(vec![34, 300], vec![-1, 0]);
    let (ticked, bounced) = tick_entity_checked(&mut e, &arena(), &footprint(), SPEED, -5);
    assert!(!ticked);
    assert!(!bounced);
    assert_eq!(e.pos, vec![34, 300]);
}

#[test]
fn checked_batch_skips_only_the_malformed_entity() {
    let mut batch = vec![
        Entity::new(vec![34, 300], vec![-1, 0]),
        Entity::new(vec![400], vec![1]),
        Entity::new(vec![400, 300], vec![1, 0]),
    ];
    let events = tick_entities_checked(&mut batch, &arena(), &footprint(), SPEED, 100);
    assert_eq!(events, vec![true, false, false]);
    assert_eq!(batch[0].pos, vec![32, 300]);
    assert_eq!(batch[1].pos, vec![400]);
    assert_eq!(batch[1].dir, vec![1]);
    assert_eq!(batch[2].pos, vec![420, 300]);
}

#[test]
fn key_direction_components() {
    assert_eq!(key_direction(false, false, false, false), (0, 0));
    assert_eq!(key_direction(true, false, false, false), (-1, 0));
    assert_eq!(key_direction(false, true, false, false), (1, 0));
    assert_eq!(key_direction(false, false, true, false), (0, 1));
    assert_eq!(key_direction(false, false, false, true), (0, -1));
    // opposite keys cancel
    assert_eq!(key_direction(true, true, true, true), (0, 0));
    assert_eq!(key_direction(false, true, true, false), (1, 1));
}
