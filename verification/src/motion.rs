//! Motion controller: advances each sprite by its velocity once per tick,
//! reflects the velocity off arena edges, and clamps the position back
//! into the valid range.  A tick is one atomic step per entity: advance,
//! classify, flip, clamp, so no frame can leave a position out of range.

use vstd::prelude::*;

use crate::cap::Cap;
use crate::cap::Classification;
use crate::cap::calc_cap;
use crate::cap::cap_max_of;
use crate::cap::cap_min_of;
use crate::cap::clamp_spec;
use crate::cap::classify_spec;
use crate::cap::half_extent;
use crate::cap::half_of;
use crate::cap::in_i64;

verus! {

/// The distance a sprite covers in one tick: `speed` units per second over
/// `dt_ms` milliseconds, rounded toward zero.
pub open spec fn step_of(speed: int, dt_ms: int) -> int {
    (speed * dt_ms) / 1000
}

/// The position on one axis after advancing by the velocity for one tick.
pub open spec fn advanced_of(pos: int, dir: int, speed: int, dt_ms: int) -> int {
    pos + dir * step_of(speed, dt_ms)
}

/// The arena midpoint of a range derived from an arena extent: for
/// `min == sprite / 2` and `max == window - sprite / 2` this is half the
/// window, where a sprite too large for the arena is parked.
pub open spec fn midpoint_of(min: int, max: int) -> int {
    half_extent(min + max)
}

/// Whether one axis bounces this tick: its range is ordered and the
/// advanced position fell strictly outside it.  A degenerate range
/// (`min > max`, footprint larger than the arena) never bounces, so a
/// sprite parked at the midpoint does not oscillate.
pub open spec fn axis_bounced(min: int, max: int, adv: int) -> bool {
    min <= max && classify_spec(min, max, adv) != Classification::Within
}

/// The position on one axis after the tick: the advanced position clamped
/// into an ordered range, or the arena midpoint on a degenerate range.
pub open spec fn axis_pos_after(min: int, max: int, adv: int) -> int {
    if min <= max {
        clamp_spec(min, max, adv)
    } else {
        midpoint_of(min, max)
    }
}

/// The velocity component on one axis after the tick: flipped exactly when
/// the axis bounced, otherwise unchanged.
pub open spec fn axis_dir_after(min: int, max: int, adv: int, dir: int) -> int {
    if axis_bounced(min, max, adv) {
        -dir
    } else {
        dir
    }
}

/// The machine limits one axis of a tick needs: the speed and elapsed time
/// are nonnegative and every intermediate value fits in `i64`.
pub open spec fn axis_tick_ok(min: int, max: int, pos: int, dir: int, speed: int, dt_ms: int) -> bool {
    &&& speed >= 0
    &&& dt_ms >= 0
    &&& in_i64(speed * dt_ms)
    &&& in_i64(dir * step_of(speed, dt_ms))
    &&& in_i64(advanced_of(pos, dir, speed, dt_ms))
    &&& dir != i64::MIN
    &&& in_i64(min + max)
    &&& min + max != i64::MIN
}

/// Advances a position on one axis by the velocity for one tick.
pub fn advance(pos: i64, dir: i64, speed: i64, dt_ms: i64) -> (adv: i64)
    requires
        speed >= 0,
        dt_ms >= 0,
        in_i64(speed * dt_ms),
        in_i64(dir * step_of(speed as int, dt_ms as int)),
        in_i64(advanced_of(pos as int, dir as int, speed as int, dt_ms as int)),
    ensures
        adv == advanced_of(pos as int, dir as int, speed as int, dt_ms as int),
{
    let step = (speed * dt_ms) / 1000;
    pos + dir * step
}

/// A moving sprite: a center position and a velocity direction, one
/// component of each per arena axis.  The direction's component signs
/// carry the heading; its magnitude scales the per-kind speed.
pub struct Entity {
    pub pos: Vec<i64>,
    pub dir: Vec<i64>,
}

impl Entity {
    /// Well-formed: one direction component per position component.
    pub open spec fn wf(&self) -> bool {
        self.pos@.len() == self.dir@.len()
    }

    pub fn new(pos: Vec<i64>, dir: Vec<i64>) -> (e: Self)
        requires
            pos@.len() == dir@.len(),
        ensures
            e.wf(),
            e.pos@ == pos@,
            e.dir@ == dir@,
    {
        Self { pos, dir }
    }
}

/// The machine limits a whole entity tick needs: the axis counts agree and
/// every axis meets [`axis_tick_ok`] for its derived bound range.
pub open spec fn entity_tick_ok(
    window: Seq<i64>,
    sprite: Seq<i64>,
    pos: Seq<i64>,
    dir: Seq<i64>,
    speed: int,
    dt_ms: int,
) -> bool {
    &&& window.len() == pos.len()
    &&& sprite.len() == pos.len()
    &&& dir.len() == pos.len()
    &&& forall|i: int| 0 <= i < pos.len() ==> sprite[i] != i64::MIN
    &&& forall|i: int|
        0 <= i < pos.len() ==> in_i64(cap_max_of(window[i] as int, sprite[i] as int))
    &&& forall|i: int|
        0 <= i < pos.len() ==> axis_tick_ok(
            cap_min_of(sprite[i] as int),
            cap_max_of(window[i] as int, sprite[i] as int),
            pos[i] as int,
            dir[i] as int,
            speed,
            dt_ms,
        )
}

/// The position an entity tick leaves on axis `i`.
pub open spec fn tick_pos_at(
    window: Seq<i64>,
    sprite: Seq<i64>,
    pos: Seq<i64>,
    dir: Seq<i64>,
    speed: int,
    dt_ms: int,
    i: int,
) -> int {
    axis_pos_after(
        cap_min_of(sprite[i] as int),
        cap_max_of(window[i] as int, sprite[i] as int),
        advanced_of(pos[i] as int, dir[i] as int, speed, dt_ms),
    )
}

/// The velocity direction an entity tick leaves on axis `i`.
pub open spec fn tick_dir_at(
    window: Seq<i64>,
    sprite: Seq<i64>,
    pos: Seq<i64>,
    dir: Seq<i64>,
    speed: int,
    dt_ms: int,
    i: int,
) -> int {
    axis_dir_after(
        cap_min_of(sprite[i] as int),
        cap_max_of(window[i] as int, sprite[i] as int),
        advanced_of(pos[i] as int, dir[i] as int, speed, dt_ms),
        dir[i] as int,
    )
}

/// Whether an entity tick bounces on axis `i`.
pub open spec fn tick_bounced_at(
    window: Seq<i64>,
    sprite: Seq<i64>,
    pos: Seq<i64>,
    dir: Seq<i64>,
    speed: int,
    dt_ms: int,
    i: int,
) -> bool {
    axis_bounced(
        cap_min_of(sprite[i] as int),
        cap_max_of(window[i] as int, sprite[i] as int),
        advanced_of(pos[i] as int, dir[i] as int, speed, dt_ms),
    )
}

/// Whether an entity tick bounces at all: one flag for the whole entity,
/// set when any axis bounces, so a corner hit is still a single event.
pub open spec fn tick_bounced(
    window: Seq<i64>,
    sprite: Seq<i64>,
    pos: Seq<i64>,
    dir: Seq<i64>,
    speed: int,
    dt_ms: int,
) -> bool {
    exists|i: int|
        0 <= i < pos.len() && tick_bounced_at(window, sprite, pos, dir, speed, dt_ms, i)
}

/// One axis of a tick, taken on an already advanced position: classify it
/// against the range, flip the velocity component if it is out of range,
/// and clamp it back in; on a degenerate range, park at the arena midpoint
/// and suppress the bounce.
fn confine_axis(cap: &Cap, adv: i64, dir: i64) -> (r: (i64, i64, bool))
    requires
        dir != i64::MIN,
        in_i64(cap.min + cap.max),
        cap.min + cap.max != i64::MIN,
    ensures
        r.0 == axis_pos_after(cap.min as int, cap.max as int, adv as int),
        r.1 == axis_dir_after(cap.min as int, cap.max as int, adv as int, dir as int),
        r.2 == axis_bounced(cap.min as int, cap.max as int, adv as int),
{
    if cap.min > cap.max {
        let sum = cap.min + cap.max;
        let mid = if sum >= 0 {
            sum / 2
        } else {
            -((-sum) / 2)
        };
        (mid, dir, false)
    } else {
        let c = cap.test(adv);
        let bounced = !matches!(c, Classification::Within);
        let new_dir = if bounced {
            -dir
        } else {
            dir
        };
        (cap.apply(adv), new_dir, bounced)
    }
}

/// Advances and confines one entity for one tick, atomically per axis:
/// advance by the velocity, flip the velocity component on any axis whose
/// advanced position left the range, and clamp the position back in,
/// unconditionally.  Returns whether the entity bounced this tick: one
/// flag for the whole entity, however many axes were out of range.
pub fn tick_entity(
    e: &mut Entity,
    window: &Vec<i64>,
    sprite: &Vec<i64>,
    speed: i64,
    dt_ms: i64,
) -> (bounced: bool)
    requires
        old(e).wf(),
        entity_tick_ok(
            window@,
            sprite@,
            old(e).pos@,
            old(e).dir@,
            speed as int,
            dt_ms as int,
        ),
    ensures
        final(e).wf(),
        final(e).pos@.len() == old(e).pos@.len(),
        forall|i: int|
            0 <= i < old(e).pos@.len() ==> final(e).pos@[i] == tick_pos_at(
                window@,
                sprite@,
                old(e).pos@,
                old(e).dir@,
                speed as int,
                dt_ms as int,
                i,
            ),
        forall|i: int|
            0 <= i < old(e).pos@.len() ==> final(e).dir@[i] == tick_dir_at(
                window@,
                sprite@,
                old(e).pos@,
                old(e).dir@,
                speed as int,
                dt_ms as int,
                i,
            ),
        bounced == tick_bounced(
            window@,
            sprite@,
            old(e).pos@,
            old(e).dir@,
            speed as int,
            dt_ms as int,
        ),
{
    let ghost pos0 = e.pos@;
    let ghost dir0 = e.dir@;
    let caps = calc_cap(window, sprite);
    let n = window.len();
    let mut new_pos: Vec<i64> = Vec::new();
    let mut new_dir: Vec<i64> = Vec::new();
    let mut bounced = false;
    let mut i: usize = 0;
    while i < n
        invariant
            e.pos@ == pos0,
            e.dir@ == dir0,
            n == window@.len(),
            entity_tick_ok(window@, sprite@, pos0, dir0, speed as int, dt_ms as int),
            caps@.len() == n,
            forall|j: int|
                0 <= j < n ==> caps@[j].min == cap_min_of(sprite@[j] as int) && caps@[j].max
                    == cap_max_of(window@[j] as int, sprite@[j] as int),
            i <= n,
            new_pos@.len() == i,
            new_dir@.len() == i,
            forall|j: int|
                0 <= j < i ==> new_pos@[j] == tick_pos_at(
                    window@,
                    sprite@,
                    pos0,
                    dir0,
                    speed as int,
                    dt_ms as int,
                    j,
                ),
            forall|j: int|
                0 <= j < i ==> new_dir@[j] == tick_dir_at(
                    window@,
                    sprite@,
                    pos0,
                    dir0,
                    speed as int,
                    dt_ms as int,
                    j,
                ),
            bounced == exists|j: int|
                0 <= j < i && tick_bounced_at(
                    window@,
                    sprite@,
                    pos0,
                    dir0,
                    speed as int,
                    dt_ms as int,
                    j,
                ),
        decreases n - i,
    {
        let adv = advance(e.pos[i], e.dir[i], speed, dt_ms);
        let (p, d, b) = confine_axis(&caps[i], adv, e.dir[i]);
        new_pos.push(p);
        new_dir.push(d);
        proof {
            let gi = i as int;
            assert(b == tick_bounced_at(
                window@,
                sprite@,
                pos0,
                dir0,
                speed as int,
                dt_ms as int,
                gi,
            ));
            if b {
                assert(exists|j: int|
                    0 <= j < gi + 1 && tick_bounced_at(
                        window@,
                        sprite@,
                        pos0,
                        dir0,
                        speed as int,
                        dt_ms as int,
                        j,
                    )) by {
                    assert(tick_bounced_at(
                        window@,
                        sprite@,
                        pos0,
                        dir0,
                        speed as int,
                        dt_ms as int,
                        gi,
                    ));
                }
            }
        }
        bounced = bounced || b;
        i = i + 1;
    }
    e.pos = new_pos;
    e.dir = new_dir;
    bounced
}

/// Decides at run time whether one axis meets the machine limits a tick
/// needs, exactly: true if and only if the footprint can be halved, the
/// range's upper end fits, and [`axis_tick_ok`] holds for the axis.
fn check_axis(window_i: i64, sprite_i: i64, pos_i: i64, dir_i: i64, speed: i64, dt_ms: i64) -> (ok:
    bool)
    ensures
        ok == (sprite_i != i64::MIN && in_i64(cap_max_of(window_i as int, sprite_i as int))
            && axis_tick_ok(
            cap_min_of(sprite_i as int),
            cap_max_of(window_i as int, sprite_i as int),
            pos_i as int,
            dir_i as int,
            speed as int,
            dt_ms as int,
        )),
{
    if speed < 0 || dt_ms < 0 || sprite_i == i64::MIN || dir_i == i64::MIN || window_i
        == i64::MIN {
        return false;
    }
    let half = half_of(sprite_i);
    if window_i.checked_sub(half).is_none() {
        return false;
    }
    let p = match speed.checked_mul(dt_ms) {
        Some(p) => p,
        None => {
            return false;
        },
    };
    let step = p / 1000;
    let d = match dir_i.checked_mul(step) {
        Some(d) => d,
        None => {
            return false;
        },
    };
    pos_i.checked_add(d).is_some()
}

/// A tick that validates its inputs instead of requiring them: when the
/// axis counts agree and every axis meets the machine limits, the entity
/// is ticked as by [`tick_entity`] and the first flag is set; a malformed
/// entity is skipped for this tick, left unchanged, with both flags
/// cleared — it never aborts the caller's batch.  The second flag is the
/// bounce event.
pub fn tick_entity_checked(
    e: &mut Entity,
    window: &Vec<i64>,
    sprite: &Vec<i64>,
    speed: i64,
    dt_ms: i64,
) -> (r: (bool, bool))
    ensures
        r.0 == entity_tick_ok(
            window@,
            sprite@,
            old(e).pos@,
            old(e).dir@,
            speed as int,
            dt_ms as int,
        ),
        !r.0 ==> *final(e) == *old(e) && !r.1,
        r.0 ==> final(e).wf(),
        r.0 ==> final(e).pos@.len() == old(e).pos@.len(),
        r.0 ==> forall|i: int|
            0 <= i < old(e).pos@.len() ==> final(e).pos@[i] == tick_pos_at(
                window@,
                sprite@,
                old(e).pos@,
                old(e).dir@,
                speed as int,
                dt_ms as int,
                i,
            ),
        r.0 ==> forall|i: int|
            0 <= i < old(e).pos@.len() ==> final(e).dir@[i] == tick_dir_at(
                window@,
                sprite@,
                old(e).pos@,
                old(e).dir@,
                speed as int,
                dt_ms as int,
                i,
            ),
        r.0 ==> r.1 == tick_bounced(
            window@,
            sprite@,
            old(e).pos@,
            old(e).dir@,
            speed as int,
            dt_ms as int,
        ),
{
    if e.pos.len() != e.dir.len() || window.len() != e.pos.len() || sprite.len() != e.pos.len() {
        return (false, false);
    }
    let n = e.pos.len();
    let mut i: usize = 0;
    while i < n
        invariant
            *e == *old(e),
            n == e.pos@.len(),
            e.pos@.len() == e.dir@.len(),
            window@.len() == n,
            sprite@.len() == n,
            i <= n,
            forall|j: int|
                0 <= j < i ==> sprite@[j] != i64::MIN && in_i64(
                    cap_max_of(window@[j] as int, sprite@[j] as int),
                ) && axis_tick_ok(
                    cap_min_of(sprite@[j] as int),
                    cap_max_of(window@[j] as int, sprite@[j] as int),
                    e.pos@[j] as int,
                    e.dir@[j] as int,
                    speed as int,
                    dt_ms as int,
                ),
        decreases n - i,
    {
        if !check_axis(window[i], sprite[i], e.pos[i], e.dir[i], speed, dt_ms) {
            proof {
                let gi = i as int;
                if entity_tick_ok(
                    window@,
                    sprite@,
                    e.pos@,
                    e.dir@,
                    speed as int,
                    dt_ms as int,
                ) {
                    assert(sprite@[gi] != i64::MIN);
                    assert(in_i64(cap_max_of(window@[gi] as int, sprite@[gi] as int)));
                    assert(axis_tick_ok(
                        cap_min_of(sprite@[gi] as int),
                        cap_max_of(window@[gi] as int, sprite@[gi] as int),
                        e.pos@[gi] as int,
                        e.dir@[gi] as int,
                        speed as int,
                        dt_ms as int,
                    ));
                    assert(false);
                }
            }
            return (false, false);
        }
        i = i + 1;
    }
    let b = tick_entity(e, window, sprite, speed, dt_ms);
    (true, b)
}

/// Advances and confines a whole batch of entities of one kind for one
/// tick.  Entities do not interact, so the batch outcome is the per-entity
/// outcome at every index; the returned flags report, per entity, whether
/// it bounced this tick.
pub fn tick_entities(
    entities: &mut Vec<Entity>,
    window: &Vec<i64>,
    sprite: &Vec<i64>,
    speed: i64,
    dt_ms: i64,
) -> (events: Vec<bool>)
    requires
        forall|k: int| 0 <= k < old(entities)@.len() ==> (#[trigger] old(entities)@[k]).wf(),
        forall|k: int|
            0 <= k < old(entities)@.len() ==> entity_tick_ok(
                window@,
                sprite@,
                (#[trigger] old(entities)@[k]).pos@,
                old(entities)@[k].dir@,
                speed as int,
                dt_ms as int,
            ),
    ensures
        final(entities)@.len() == old(entities)@.len(),
        events@.len() == old(entities)@.len(),
        forall|k: int| 0 <= k < old(entities)@.len() ==> (#[trigger] final(entities)@[k]).wf(),
        forall|k: int|
            0 <= k < old(entities)@.len() ==> (#[trigger] final(entities)@[k]).pos@.len()
                == old(entities)@[k].pos@.len(),
        forall|k: int, i: int|
            0 <= k < old(entities)@.len() && 0 <= i < old(entities)@[k].pos@.len()
                ==> (#[trigger] final(entities)@[k].pos@[i]) == tick_pos_at(
                window@,
                sprite@,
                old(entities)@[k].pos@,
                old(entities)@[k].dir@,
                speed as int,
                dt_ms as int,
                i,
            ),
        forall|k: int, i: int|
            0 <= k < old(entities)@.len() && 0 <= i < old(entities)@[k].pos@.len()
                ==> (#[trigger] final(entities)@[k].dir@[i]) == tick_dir_at(
                window@,
                sprite@,
                old(entities)@[k].pos@,
                old(entities)@[k].dir@,
                speed as int,
                dt_ms as int,
                i,
            ),
        forall|k: int|
            0 <= k < old(entities)@.len() ==> (#[trigger] events@[k]) == tick_bounced(
                window@,
                sprite@,
                old(entities)@[k].pos@,
                old(entities)@[k].dir@,
                speed as int,
                dt_ms as int,
            ),
{
    let ghost ents0 = entities@;
    let mut events: Vec<bool> = Vec::new();
    let n = entities.len();
    let mut k: usize = 0;
    while k < n
        invariant
            n == ents0.len(),
            entities@.len() == n,
            events@.len() == k,
            k <= n,
            forall|j: int| 0 <= j < n ==> (#[trigger] ents0[j]).wf(),
            forall|j: int|
                0 <= j < n ==> entity_tick_ok(
                    window@,
                    sprite@,
                    (#[trigger] ents0[j]).pos@,
                    ents0[j].dir@,
                    speed as int,
                    dt_ms as int,
                ),
            forall|j: int| k <= j < n ==> entities@[j] == ents0[j],
            forall|j: int| 0 <= j < k ==> (#[trigger] entities@[j]).wf(),
            forall|j: int|
                0 <= j < k ==> (#[trigger] entities@[j]).pos@.len() == ents0[j].pos@.len(),
            forall|j: int, i: int|
                0 <= j < k && 0 <= i < ents0[j].pos@.len() ==> (#[trigger] entities@[j].pos@[i])
                    == tick_pos_at(
                    window@,
                    sprite@,
                    ents0[j].pos@,
                    ents0[j].dir@,
                    speed as int,
                    dt_ms as int,
                    i,
                ),
            forall|j: int, i: int|
                0 <= j < k && 0 <= i < ents0[j].pos@.len() ==> (#[trigger] entities@[j].dir@[i])
                    == tick_dir_at(
                    window@,
                    sprite@,
                    ents0[j].pos@,
                    ents0[j].dir@,
                    speed as int,
                    dt_ms as int,
                    i,
                ),
            forall|j: int|
                0 <= j < k ==> (#[trigger] events@[j]) == tick_bounced(
                    window@,
                    sprite@,
                    ents0[j].pos@,
                    ents0[j].dir@,
                    speed as int,
                    dt_ms as int,
                ),
        decreases n - k,
    {
        proof {
            let gk = k as int;
            assert(entities@[gk] == ents0[gk]);
            assert(ents0[gk].wf());
            assert(entity_tick_ok(
                window@,
                sprite@,
                ents0[gk].pos@,
                ents0[gk].dir@,
                speed as int,
                dt_ms as int,
            ));
        }
        let b = tick_entity(&mut entities[k], window, sprite, speed, dt_ms);
        events.push(b);
        k = k + 1;
    }
    events
}

/// A batch tick that validates each entity instead of requiring it: every
/// entity that meets the machine limits is ticked as by [`tick_entity`];
/// a malformed one is skipped for this tick and left unchanged, and its
/// event flag stays clear — one bad entity never aborts the batch.
pub fn tick_entities_checked(
    entities: &mut Vec<Entity>,
    window: &Vec<i64>,
    sprite: &Vec<i64>,
    speed: i64,
    dt_ms: i64,
) -> (events: Vec<bool>)
    ensures
        final(entities)@.len() == old(entities)@.len(),
        events@.len() == old(entities)@.len(),
        forall|k: int|
            0 <= k < old(entities)@.len() && !entity_tick_ok(
                window@,
                sprite@,
                (#[trigger] old(entities)@[k]).pos@,
                old(entities)@[k].dir@,
                speed as int,
                dt_ms as int,
            ) ==> final(entities)@[k] == old(entities)@[k] && !events@[k],
        forall|k: int, i: int|
            0 <= k < old(entities)@.len() && entity_tick_ok(
                window@,
                sprite@,
                old(entities)@[k].pos@,
                old(entities)@[k].dir@,
                speed as int,
                dt_ms as int,
            ) && 0 <= i < old(entities)@[k].pos@.len() ==> (#[trigger] final(entities)@[k].pos@[i])
                == tick_pos_at(
                window@,
                sprite@,
                old(entities)@[k].pos@,
                old(entities)@[k].dir@,
                speed as int,
                dt_ms as int,
                i,
            ) && final(entities)@[k].dir@[i] == tick_dir_at(
                window@,
                sprite@,
                old(entities)@[k].pos@,
                old(entities)@[k].dir@,
                speed as int,
                dt_ms as int,
                i,
            ) && final(entities)@[k].pos@.len() == old(entities)@[k].pos@.len(),
        forall|k: int|
            0 <= k < old(entities)@.len() && entity_tick_ok(
                window@,
                sprite@,
                old(entities)@[k].pos@,
                old(entities)@[k].dir@,
                speed as int,
                dt_ms as int,
            ) ==> (#[trigger] events@[k]) == tick_bounced(
                window@,
                sprite@,
                old(entities)@[k].pos@,
                old(entities)@[k].dir@,
                speed as int,
                dt_ms as int,
            ),
{
    let ghost ents0 = entities@;
    let mut events: Vec<bool> = Vec::new();
    let n = entities.len();
    let mut k: usize = 0;
    while k < n
        invariant
            n == ents0.len(),
            entities@.len() == n,
            events@.len() == k,
            k <= n,
            forall|j: int| k <= j < n ==> entities@[j] == ents0[j],
            forall|j: int|
                0 <= j < k && !entity_tick_ok(
                    window@,
                    sprite@,
                    (#[trigger] ents0[j]).pos@,
                    ents0[j].dir@,
                    speed as int,
                    dt_ms as int,
                ) ==> entities@[j] == ents0[j] && !events@[j],
            forall|j: int, i: int|
                0 <= j < k && entity_tick_ok(
                    window@,
                    sprite@,
                    ents0[j].pos@,
                    ents0[j].dir@,
                    speed as int,
                    dt_ms as int,
                ) && 0 <= i < ents0[j].pos@.len() ==> (#[trigger] entities@[j].pos@[i])
                    == tick_pos_at(
                    window@,
                    sprite@,
                    ents0[j].pos@,
                    ents0[j].dir@,
                    speed as int,
                    dt_ms as int,
                    i,
                ) && entities@[j].dir@[i] == tick_dir_at(
                    window@,
                    sprite@,
                    ents0[j].pos@,
                    ents0[j].dir@,
                    speed as int,
                    dt_ms as int,
                    i,
                ) && entities@[j].pos@.len() == ents0[j].pos@.len(),
            forall|j: int|
                0 <= j < k && entity_tick_ok(
                    window@,
                    sprite@,
                    (#[trigger] ents0[j]).pos@,
                    ents0[j].dir@,
                    speed as int,
                    dt_ms as int,
                ) ==> events@[j] == tick_bounced(
                    window@,
                    sprite@,
                    ents0[j].pos@,
                    ents0[j].dir@,
                    speed as int,
                    dt_ms as int,
                ),
        decreases n - k,
    {
        proof {
            let gk = k as int;
            assert(entities@[gk] == ents0[gk]);
        }
        let r = tick_entity_checked(&mut entities[k], window, sprite, speed, dt_ms);
        events.push(r.1);
        k = k + 1;
    }
    events
}

/// After a tick, the position on every axis whose range is ordered lies
/// within the range, whatever the pre-tick position and velocity: the
/// clamp is unconditional, so no frame can end out of range.
pub proof fn lemma_post_tick_within(min: int, max: int, adv: int)
    requires
        min <= max,
    ensures
        min <= axis_pos_after(min, max, adv) <= max,
{
}

/// The entity-level reading of the post-tick invariant: on every axis of
/// an entity whose bound range is ordered, the ticked position lies within
/// that range, regardless of the pre-tick state.
pub proof fn lemma_post_tick_in_range(
    window: Seq<i64>,
    sprite: Seq<i64>,
    pos: Seq<i64>,
    dir: Seq<i64>,
    speed: int,
    dt_ms: int,
    i: int,
)
    requires
        0 <= i < pos.len(),
        window.len() == pos.len(),
        sprite.len() == pos.len(),
        dir.len() == pos.len(),
        cap_min_of(sprite[i] as int) <= cap_max_of(window[i] as int, sprite[i] as int),
    ensures
        cap_min_of(sprite[i] as int) <= tick_pos_at(window, sprite, pos, dir, speed, dt_ms, i)
            <= cap_max_of(window[i] as int, sprite[i] as int),
{
}

/// A corner hit is a single event: an entity whose advanced position is
/// out of range on both axes of a two-axis arena in the same tick sets the
/// one per-entity bounce flag, which is the whole of what a tick emits —
/// there is no second event for the second axis.
pub proof fn lemma_corner_hit_single_event(
    window: Seq<i64>,
    sprite: Seq<i64>,
    pos: Seq<i64>,
    dir: Seq<i64>,
    speed: int,
    dt_ms: int,
)
    requires
        pos.len() == 2,
        window.len() == 2,
        sprite.len() == 2,
        dir.len() == 2,
        tick_bounced_at(window, sprite, pos, dir, speed, dt_ms, 0),
        tick_bounced_at(window, sprite, pos, dir, speed, dt_ms, 1),
    ensures
        tick_bounced(window, sprite, pos, dir, speed, dt_ms),
{
    assert(tick_bounced_at(window, sprite, pos, dir, speed, dt_ms, 0));
}

/// One inward tick: when the range is ordered and the advanced position is
/// already within it, the axis does not bounce, the clamp is a no-op, and
/// the velocity direction is unchanged.
pub proof fn lemma_inward_tick(min: int, max: int, pos: int, dir: int, speed: int, dt_ms: int)
    requires
        min <= max,
        min <= advanced_of(pos, dir, speed, dt_ms) <= max,
    ensures
        !axis_bounced(min, max, advanced_of(pos, dir, speed, dt_ms)),
        axis_pos_after(min, max, advanced_of(pos, dir, speed, dt_ms)) == advanced_of(
            pos,
            dir,
            speed,
            dt_ms,
        ),
        axis_dir_after(min, max, advanced_of(pos, dir, speed, dt_ms), dir) == dir,
{
}

/// The entity-level reading of one inward tick: on an axis whose range is
/// ordered and whose advanced position stays within it, the tick neither
/// bounces nor clamps, and leaves the direction alone.
pub proof fn lemma_inward_tick_entity(
    window: Seq<i64>,
    sprite: Seq<i64>,
    pos: Seq<i64>,
    dir: Seq<i64>,
    speed: int,
    dt_ms: int,
    i: int,
)
    requires
        0 <= i < pos.len(),
        window.len() == pos.len(),
        sprite.len() == pos.len(),
        dir.len() == pos.len(),
        cap_min_of(sprite[i] as int) <= cap_max_of(window[i] as int, sprite[i] as int),
        cap_min_of(sprite[i] as int) <= advanced_of(pos[i] as int, dir[i] as int, speed, dt_ms)
            <= cap_max_of(window[i] as int, sprite[i] as int),
    ensures
        !tick_bounced_at(window, sprite, pos, dir, speed, dt_ms, i),
        tick_pos_at(window, sprite, pos, dir, speed, dt_ms, i) == advanced_of(
            pos[i] as int,
            dir[i] as int,
            speed,
            dt_ms,
        ),
        tick_dir_at(window, sprite, pos, dir, speed, dt_ms, i) == dir[i] as int,
{
}

/// The position on one axis after a run of ticks, each advancing by the
/// elapsed time at its index and confining the result.
pub open spec fn axis_run_pos(min: int, max: int, pos: int, dir: int, speed: int, dts: Seq<int>) -> int
    decreases dts.len(),
{
    if dts.len() == 0 {
        pos
    } else {
        let adv = advanced_of(pos, dir, speed, dts[0]);
        axis_run_pos(
            min,
            max,
            axis_pos_after(min, max, adv),
            axis_dir_after(min, max, adv, dir),
            speed,
            dts.drop_first(),
        )
    }
}

/// The velocity direction on one axis after a run of ticks.
pub open spec fn axis_run_dir(min: int, max: int, pos: int, dir: int, speed: int, dts: Seq<int>) -> int
    decreases dts.len(),
{
    if dts.len() == 0 {
        dir
    } else {
        let adv = advanced_of(pos, dir, speed, dts[0]);
        axis_run_dir(
            min,
            max,
            axis_pos_after(min, max, adv),
            axis_dir_after(min, max, adv, dir),
            speed,
            dts.drop_first(),
        )
    }
}

/// Whether any tick of a run bounces on this axis.
pub open spec fn axis_run_bounces(
    min: int,
    max: int,
    pos: int,
    dir: int,
    speed: int,
    dts: Seq<int>,
) -> bool
    decreases dts.len(),
{
    if dts.len() == 0 {
        false
    } else {
        let adv = advanced_of(pos, dir, speed, dts[0]);
        axis_bounced(min, max, adv) || axis_run_bounces(
            min,
            max,
            axis_pos_after(min, max, adv),
            axis_dir_after(min, max, adv, dir),
            speed,
            dts.drop_first(),
        )
    }
}

/// The position a run of ticks would reach with no confinement at all:
/// advance by the velocity at each step and keep the result.
pub open spec fn axis_free_pos(pos: int, dir: int, speed: int, dts: Seq<int>) -> int
    decreases dts.len(),
{
    if dts.len() == 0 {
        pos
    } else {
        axis_free_pos(advanced_of(pos, dir, speed, dts[0]), dir, speed, dts.drop_first())
    }
}

/// Whether a velocity points into the arena for a whole run: at each tick,
/// the position it advances to lies within the ordered range.
pub open spec fn always_inward(
    min: int,
    max: int,
    pos: int,
    dir: int,
    speed: int,
    dts: Seq<int>,
) -> bool
    decreases dts.len(),
{
    dts.len() == 0 || {
        let adv = advanced_of(pos, dir, speed, dts[0]);
        &&& min <= adv <= max
        &&& always_inward(min, max, adv, dir, speed, dts.drop_first())
    }
}

/// Round trip: repeatedly ticking an axis with a velocity that always
/// points into the arena never triggers a bounce, never changes the
/// direction, and leaves every clamp a no-op, so the run ends exactly
/// where the unconfined advances would.
pub proof fn lemma_round_trip(min: int, max: int, pos: int, dir: int, speed: int, dts: Seq<int>)
    requires
        min <= max,
        always_inward(min, max, pos, dir, speed, dts),
    ensures
        !axis_run_bounces(min, max, pos, dir, speed, dts),
        axis_run_dir(min, max, pos, dir, speed, dts) == dir,
        axis_run_pos(min, max, pos, dir, speed, dts) == axis_free_pos(pos, dir, speed, dts),
    decreases dts.len(),
{
    if dts.len() > 0 {
        let adv = advanced_of(pos, dir, speed, dts[0]);
        lemma_inward_tick(min, max, pos, dir, speed, dts[0]);
        lemma_round_trip(min, max, adv, dir, speed, dts.drop_first());
    }
}

/// The velocity direction a set of pressed movement keys asks for: the
/// horizontal component is right minus left, the vertical component is up
/// minus down, so opposite keys cancel and each component is `-1`, `0` or
/// `1`.
pub fn key_direction(left: bool, right: bool, up: bool, down: bool) -> (dir: (i64, i64))
    ensures
        dir.0 == (if right { 1int } else { 0int }) - (if left { 1int } else { 0int }),
        dir.1 == (if up { 1int } else { 0int }) - (if down { 1int } else { 0int }),
{
    let x: i64 = (if right { 1 } else { 0 }) - (if left { 1 } else { 0 });
    let y: i64 = (if up { 1 } else { 0 }) - (if down { 1 } else { 0 });
    (x, y)
}

} // verus!
