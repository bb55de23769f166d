use vstd::prelude::*;

use crate::color::Color;
use crate::cooldown::Cooldown;
use crate::entity::Enemy;
use crate::geom::Vec2;
use crate::rng::{rand_range_i64, rand_range_usize};

verus! {

/// Side length of a spawn box, in milli-units (five units).
pub const WAVE_SPAWN_AREA: i64 = 5000;

/// Base number of enemies per wave, before the multiplier bonus.
pub const WAVE_BASE_COUNT: usize = 3;

/// The corner of a spawn box: the four quadrant boxes sit a quarter-box in
/// from the room edges; the fifth box is centered on the room.
/// Order: top-right, bottom-right, bottom-left, top-left, center.
pub open spec fn spawn_box_spec(i: int) -> Vec2 {
    if i == 0 {
        Vec2 { x: 17_500i64, y: 17_500i64 }
    } else if i == 1 {
        Vec2 { x: 17_500i64, y: -17_500i64 }
    } else if i == 2 {
        Vec2 { x: -17_500i64, y: -17_500i64 }
    } else if i == 3 {
        Vec2 { x: -17_500i64, y: 17_500i64 }
    } else {
        Vec2 { x: -2_500i64, y: -2_500i64 }
    }
}

/// Whether the player stands in the inner quarter of the room.
pub open spec fn in_center_spec(player_pos: Vec2) -> bool {
    -4375 < player_pos.x < 4375 && -4375 < player_pos.y < 4375
}

/// Which spawn box the player occupies, and so which one a wave must not
/// use: the center box when the player is within the inner quarter, else
/// the quadrant box matching the signs of the player's position.
pub open spec fn excluded_box_spec(player_pos: Vec2) -> int {
    if in_center_spec(player_pos) {
        4
    } else if player_pos.x > 0 && player_pos.y > 0 {
        0
    } else if player_pos.x > 0 {
        1
    } else if player_pos.y <= 0 {
        2
    } else {
        3
    }
}

pub fn excluded_box(player_pos: Vec2) -> (r: usize)
    requires
        player_pos.wf(),
    ensures
        r as int == excluded_box_spec(player_pos),
        r <= 4,
{
    let in_center = player_pos.x < 4375 && player_pos.x > -4375 && player_pos.y < 4375
        && player_pos.y > -4375;
    if in_center {
        4
    } else if player_pos.x > 0 && player_pos.y > 0 {
        0
    } else if player_pos.x > 0 {
        1
    } else if player_pos.y <= 0 {
        2
    } else {
        3
    }
}

/// The spawn boxes a wave may use: all five except the one the player is
/// in, the last box swapped into the hole (so four remain).
pub fn allowed_boxes(player_pos: Vec2) -> (out: Vec<Vec2>)
    requires
        player_pos.wf(),
    ensures
        out@.len() == 4,
        forall|i: int| 0 <= i < 4 ==> is_allowed_box(player_pos, #[trigger] out@[i]),
        forall|i: int| 0 <= i < 4 ==> (#[trigger] out@[i]).wf(),
{
    let mut corners: Vec<Vec2> = Vec::new();
    corners.push(Vec2 { x: 17_500, y: 17_500 });
    corners.push(Vec2 { x: 17_500, y: -17_500 });
    corners.push(Vec2 { x: -17_500, y: -17_500 });
    corners.push(Vec2 { x: -17_500, y: 17_500 });
    corners.push(Vec2 { x: -2_500, y: -2_500 });
    let excl = excluded_box(player_pos);
    proof {
        assert(forall|j: int| 0 <= j < 5 ==> corners@[j] == spawn_box_spec(j));
    }
    corners.swap_remove(excl);
    proof {
        let e = excl as int;
        assert forall|i: int| 0 <= i < 4 implies is_allowed_box(
            player_pos,
            #[trigger] corners@[i],
        ) by {
            if i == e {
                assert(corners@[i] == spawn_box_spec(4) && 4 != e);
                lemma_allowed_box(player_pos, corners@[i], 4);
            } else {
                assert(corners@[i] == spawn_box_spec(i) && i != e);
                lemma_allowed_box(player_pos, corners@[i], i);
            }
        }
    }
    corners
}

/// A spawn-box corner a wave may use given the player's position: any of
/// the five but the excluded one.
pub open spec fn is_allowed_box(player_pos: Vec2, v: Vec2) -> bool {
    exists|j: int|
        #![trigger spawn_box_spec(j)]
        0 <= j < 5 && j != excluded_box_spec(player_pos) && v == spawn_box_spec(j)
}

/// A concrete box index witnesses an allowed box.
proof fn lemma_allowed_box(player_pos: Vec2, v: Vec2, j: int)
    requires
        0 <= j < 5,
        j != excluded_box_spec(player_pos),
        v == spawn_box_spec(j),
    ensures
        is_allowed_box(player_pos, v),
{
}

/// Whether a point lies inside the spawn box with the given corner.
pub open spec fn in_spawn_box_spec(corner: Vec2, p: Vec2) -> bool {
    corner.x <= p.x < corner.x + WAVE_SPAWN_AREA && corner.y <= p.y < corner.y + WAVE_SPAWN_AREA
}

/// A freshly spawned enemy at a given position.
pub open spec fn spawned_enemy_spec(p: Vec2) -> Enemy {
    Enemy {
        position: p,
        color: Color { r: 1000, g: 1000, b: 0, a: 1000 },
        health: 2500,
        speed_milli: 750,
        cooldown: Cooldown {
            total_ms: 2000,
            remaining_ms: 0,
            state: crate::cooldown::TimerState::Ready,
        },
        should_move_next_frame: true,
    }
}

/// One frame of the wave director. The timer counts down; when it elapses
/// it rearms and a wave spawns: `WAVE_BASE_COUNT` plus the floor of the
/// score multiplier new enemies, each placed uniformly inside a spawn box
/// drawn from the allowed four — never the box nearest the player — and the
/// wave counter steps. On a frame with no trigger, nothing else changes.
pub fn wave_things(
    wave_timer: &mut Cooldown,
    enemies: &mut Vec<Enemy>,
    wave_count: &mut usize,
    player_pos: Vec2,
    multiplier_current: u32,
    delta_ms: u64,
)
    requires
        old(wave_timer).wf(),
        forall|i: int| 0 <= i < old(enemies)@.len() ==> (#[trigger] old(enemies)@[i]).wf(),
        player_pos.wf(),
        multiplier_current <= 1000,
    ensures
        final(wave_timer).wf(),
        final(wave_timer).total_ms == old(wave_timer).total_ms,
        *final(wave_timer) == (if delta_ms >= old(wave_timer).remaining_ms {
            old(wave_timer).subtracted_spec(delta_ms).reset_spec()
        } else {
            old(wave_timer).subtracted_spec(delta_ms)
        }),
        delta_ms < old(wave_timer).remaining_ms ==> final(enemies)@ == old(enemies)@ && *final(wave_count) == *old(wave_count) && final(wave_timer).remaining_ms == old(wave_timer).remaining_ms
            - delta_ms,
        *final(wave_count) == *old(wave_count) || *final(wave_count) == sat_inc_spec(*old(wave_count)),
        delta_ms >= old(wave_timer).remaining_ms ==> final(wave_timer).remaining_ms == final(wave_timer).total_ms && final(enemies)@.len() == old(enemies)@.len()
            + WAVE_BASE_COUNT + multiplier_current && final(enemies)@.take(
            old(enemies)@.len() as int,
        ) == old(enemies)@ && *final(wave_count) == sat_inc_spec(*old(wave_count)) && (forall|k: int|
            old(enemies)@.len() <= k < final(enemies)@.len() ==> spawned_in_allowed_box(
                player_pos,
                #[trigger] final(enemies)@[k],
            )),
        forall|i: int| 0 <= i < final(enemies)@.len() ==> (#[trigger] final(enemies)@[i]).wf(),
{
    wave_timer.subtract(delta_ms);
    if wave_timer.is_ready() {
        wave_timer.reset();
        let corners = allowed_boxes(player_pos);
        let count: usize = WAVE_BASE_COUNT + (multiplier_current as usize);
        let ghost orig = enemies@;
        let mut spawned: usize = 0;
        while spawned < count
            invariant
                0 <= spawned <= count,
                enemies@.len() == orig.len() + spawned,
                enemies@.take(orig.len() as int) == orig,
                corners@.len() == 4,
                forall|i: int| 0 <= i < 4 ==> is_allowed_box(player_pos, #[trigger] corners@[i]),
                forall|i: int| 0 <= i < 4 ==> (#[trigger] corners@[i]).wf(),
                forall|k: int|
                    orig.len() <= k < enemies@.len() ==> spawned_in_allowed_box(
                        player_pos,
                        #[trigger] enemies@[k],
                    ),
                forall|i: int| 0 <= i < enemies@.len() ==> (#[trigger] enemies@[i]).wf(),
            decreases count - spawned,
        {
            let ghost pre = enemies@;
            let c = rand_range_usize(0, corners.len());
            let corner = corners[c];
            let ox = rand_range_i64(0, WAVE_SPAWN_AREA);
            let oy = rand_range_i64(0, WAVE_SPAWN_AREA);
            let position = Vec2 { x: corner.x + ox, y: corner.y + oy };
            let e = Enemy {
                position,
                color: Color::yellow(),
                health: 2500,
                speed_milli: 750,
                cooldown: Cooldown::ready(2000),
                should_move_next_frame: true,
            };
            enemies.push(e);
            proof {
                assert(enemies@.take(orig.len() as int) =~= orig);
                assert(is_allowed_box(player_pos, corners@[c as int]));
                let j = choose|j: int|
                    #![trigger spawn_box_spec(j)]
                    0 <= j < 5 && j != excluded_box_spec(player_pos) && corners@[c as int]
                        == spawn_box_spec(j);
                assert(in_spawn_box_spec(spawn_box_spec(j), position));
                assert(enemies@[pre.len() as int] == spawned_enemy_spec(position));
                lemma_spawned_in_allowed_box(player_pos, enemies@[pre.len() as int], j);
            }
            spawned = spawned + 1;
        }
        if *wave_count < usize::MAX {
            *wave_count = *wave_count + 1;
        }
    }
}

/// The wave counter's step, saturating at the top of the machine word.
pub open spec fn sat_inc_spec(c: usize) -> usize {
    if c < usize::MAX {
        (c + 1) as usize
    } else {
        c
    }
}

/// A spawned enemy standing inside some allowed spawn box.
pub open spec fn spawned_in_allowed_box(player_pos: Vec2, e: Enemy) -> bool {
    exists|j: int|
        #![trigger spawn_box_spec(j)]
        0 <= j < 5 && j != excluded_box_spec(player_pos) && in_spawn_box_spec(
            spawn_box_spec(j),
            e.position,
        ) && e == spawned_enemy_spec(e.position)
}

/// A concrete box index witnesses the spawn-placement predicate.
proof fn lemma_spawned_in_allowed_box(player_pos: Vec2, e: Enemy, j: int)
    requires
        0 <= j < 5,
        j != excluded_box_spec(player_pos),
        in_spawn_box_spec(spawn_box_spec(j), e.position),
        e == spawned_enemy_spec(e.position),
    ensures
        spawned_in_allowed_box(player_pos, e),
{
}

} // verus!
