use vstd::prelude::*;

use crate::entity::{
    clamp_health, sub_health, Barrel, BoundingCircle, Enemy, Target, Wall, HEALTH_LIMIT, PLAYER_RADIUS,
    RADIUS_LIMIT,
};
use crate::geom::{Vec2, POS_LIMIT};

verus! {

/// Half the room's width and height, in milli-units: the room spans
/// [-ROOM_HALF, ROOM_HALF] on each axis.
pub const ROOM_HALF: i64 = 20_000;

/// Damage an enemy deals on contact, in hundredths, gated by its own timer.
pub const CONTACT_DAMAGE: i64 = 666;

/// Where a circle ends up after the room boundary clamp: any side of the
/// bounding circle past a room edge pulls the center back to the nearest
/// in-bounds position; the vertical clamp favors the top edge, the
/// horizontal the left, as the edge order of the checks has it.
pub open spec fn clamp_to_room_spec(center: Vec2, radius: int) -> Vec2 {
    let y = if center.y + radius > ROOM_HALF {
        ROOM_HALF - radius
    } else if center.y - radius < -ROOM_HALF {
        -ROOM_HALF + radius
    } else {
        center.y as int
    };
    let x = if center.x - radius < -ROOM_HALF {
        -ROOM_HALF + radius
    } else if center.x + radius > ROOM_HALF {
        ROOM_HALF - radius
    } else {
        center.x as int
    };
    Vec2 { x: x as i64, y: y as i64 }
}

pub fn clamp_to_room(center: Vec2, radius: i64) -> (p: Vec2)
    requires
        center.wf(),
        0 <= radius <= RADIUS_LIMIT,
    ensures
        p == clamp_to_room_spec(center, radius as int),
        p.wf(),
{
    let y: i64 = if center.y + radius > ROOM_HALF {
        ROOM_HALF - radius
    } else if center.y - radius < -ROOM_HALF {
        -ROOM_HALF + radius
    } else {
        center.y
    };
    let x: i64 = if center.x - radius < -ROOM_HALF {
        -ROOM_HALF + radius
    } else if center.x + radius > ROOM_HALF {
        ROOM_HALF - radius
    } else {
        center.x
    };
    Vec2 { x, y }
}

/// Clamp a movable entity to the room.
pub fn collide_walls<C: Target>(thing: &mut C)
    requires
        old(thing).t_wf(),
    ensures
        *final(thing) == old(thing).moved_to(
            clamp_to_room_spec(old(thing).t_center(), old(thing).t_radius()),
        ),
        final(thing).t_wf(),
        final(thing).t_health() == old(thing).t_health(),
{
    let b = thing.bounds();
    let np = clamp_to_room(b.center, b.radius);
    thing.move_to(np);
}

/// Where a mover ends up after the static-obstacle pushout: if its center is
/// strictly inside the obstacle's radius, it is pushed directly away from the
/// obstacle's center by the penetration depth; otherwise it stays put.
pub open spec fn pushout_spec(obstacle: BoundingCircle, mover_pos: Vec2) -> Vec2 {
    let dist = obstacle.center.dist_milli_spec(mover_pos);
    if dist < obstacle.radius {
        let dir = obstacle.center.sub_spec(mover_pos);
        let wanted = dir.normalize_spec().scale_spec(obstacle.radius - dist);
        mover_pos.sub_spec(wanted)
    } else {
        mover_pos
    }
}

/// Whether the pushout applies (the obstacle's radius alone decides).
pub open spec fn pushes_spec(obstacle: BoundingCircle, mover_pos: Vec2) -> bool {
    obstacle.center.dist_milli_spec(mover_pos) < obstacle.radius
}

pub fn resolve_push(obstacle: &BoundingCircle, mover_pos: Vec2) -> (r: (Vec2, bool))
    requires
        obstacle.wf(),
        mover_pos.wf(),
    ensures
        r.1 == pushes_spec(*obstacle, mover_pos),
        r.0 == pushout_spec(*obstacle, mover_pos),
        r.0.wf(),
{
    let dist = obstacle.center.dist_milli(&mover_pos);
    if dist < obstacle.radius as u64 {
        let dir = obstacle.center.sub(&mover_pos);
        let wanted = dir.normalize().scale(obstacle.radius - dist as i64);
        (mover_pos.sub(&wanted), true)
    } else {
        (mover_pos, false)
    }
}

/// Collide and move: push the mover out of the obstacle and report whether
/// there was contact.
pub fn colide_and_move<B: Target>(obstacle: &BoundingCircle, mover: &mut B) -> (moved: bool)
    requires
        obstacle.wf(),
        old(mover).t_wf(),
    ensures
        moved == pushes_spec(*obstacle, old(mover).t_center()),
        *final(mover) == if moved {
            old(mover).moved_to(pushout_spec(*obstacle, old(mover).t_center()))
        } else {
            *old(mover)
        },
        final(mover).t_wf(),
        final(mover).t_health() == old(mover).t_health(),
{
    let b = mover.bounds();
    let (np, moved) = resolve_push(obstacle, b.center);
    if moved {
        mover.move_to(np);
    }
    moved
}

/// One step of the seek-the-player steering: the unit vector toward the
/// player, scaled by the enemy's speed and by the frame's elapsed seconds.
pub open spec fn seek_step_spec(pos: Vec2, player_pos: Vec2, speed: int, delta_ms: u64) -> Vec2 {
    let step = player_pos.sub_spec(pos).normalize_spec().scale_spec(speed);
    let dx = crate::trig::div_milli_spec(step.x * delta_ms);
    let dy = crate::trig::div_milli_spec(step.y * delta_ms);
    Vec2 {
        x: crate::geom::clamp_coord_spec(pos.x + dx) as i64,
        y: crate::geom::clamp_coord_spec(pos.y + dy) as i64,
    }
}

pub fn seek_step(pos: Vec2, player_pos: Vec2, speed: i64, delta_ms: u64) -> (p: Vec2)
    requires
        pos.wf(),
        player_pos.wf(),
        0 <= speed <= crate::entity::VEL_LIMIT,
    ensures
        p == seek_step_spec(pos, player_pos, speed as int, delta_ms),
        p.wf(),
{
    let step = player_pos.sub(&pos).normalize().scale(speed);
    proof {
        lemma_step_delta_bounds(step.x as int, delta_ms);
        lemma_step_delta_bounds(step.y as int, delta_ms);
    }
    let dx: i128 = crate::trig::div_milli(step.x as i128 * delta_ms as i128);
    let dy: i128 = crate::trig::div_milli(step.y as i128 * delta_ms as i128);
    Vec2 {
        x: crate::geom::clamp_coord(pos.x as i128 + dx),
        y: crate::geom::clamp_coord(pos.y as i128 + dy),
    }
}

pub proof fn lemma_step_delta_bounds(s: int, delta_ms: u64)
    requires
        -POS_LIMIT <= s <= POS_LIMIT,
    ensures
        -40_000_000_000_000_000_000_000_000_000 <= s * delta_ms
            <= 40_000_000_000_000_000_000_000_000_000,
        s >= 0 ==> s * delta_ms >= 0 && s * delta_ms / 1000 >= 0,
        s < 0 ==> s * delta_ms <= 0 && s * delta_ms / 1000 <= 0,
{
    assert(-40_000_000_000_000_000_000_000_000_000 <= s * delta_ms
        <= 40_000_000_000_000_000_000_000_000_000 && (s >= 0 ==> s * delta_ms >= 0) && (s < 0
        ==> s * delta_ms <= 0)) by (nonlinear_arith)
        requires
            -2_000_000_000 <= s <= 2_000_000_000,
            0 <= delta_ms <= 20_000_000_000_000_000_000,
    ;
}

/// One pairwise separation nudge: if the other enemy's center is strictly
/// inside this enemy's bounding radius, step away from it by the overlap.
pub open spec fn sep_step_spec(pos: Vec2, other_pos: Vec2) -> Vec2 {
    let dist = pos.dist_milli_spec(other_pos);
    if dist < PLAYER_RADIUS {
        let dir = pos.sub_spec(other_pos);
        let wanted = dir.normalize_spec().scale_spec(PLAYER_RADIUS - dist);
        pos.add_spec(wanted)
    } else {
        pos
    }
}

/// The cumulative separation of a position against a whole pool, one nudge
/// per pool member, in pool order.
pub open spec fn separate_spec(pos: Vec2, others: Seq<Enemy>) -> Vec2
    decreases others.len(),
{
    if others.len() == 0 {
        pos
    } else {
        separate_spec(sep_step_spec(pos, others[0].position), others.skip(1))
    }
}

/// Nudge a position away from every enemy in the pool it overlaps.
pub fn separate_from(pos: Vec2, others: &Vec<Enemy>) -> (p: Vec2)
    requires
        pos.wf(),
        forall|k: int| 0 <= k < others@.len() ==> (#[trigger] others@[k]).wf(),
    ensures
        p == separate_spec(pos, others@),
        p.wf(),
{
    let mut cur = pos;
    let n = others.len();
    let mut i: usize = 0;
    proof {
        assert(others@.skip(0) =~= others@);
    }
    while i < n
        invariant
            n == others@.len(),
            0 <= i <= n,
            cur.wf(),
            separate_spec(pos, others@) == separate_spec(cur, others@.skip(i as int)),
            forall|k: int| 0 <= k < others@.len() ==> (#[trigger] others@[k]).wf(),
        decreases n - i,
    {
        let other = &others[i];
        let dist = cur.dist_milli(&other.position);
        proof {
            assert(others@.skip(i as int)[0] == others@[i as int]);
            assert(others@.skip(i as int).skip(1) =~= others@.skip(i as int + 1));
        }
        if dist < PLAYER_RADIUS as u64 {
            let dir = cur.sub(&other.position);
            let wanted = dir.normalize().scale(PLAYER_RADIUS - dist as i64);
            cur = cur.add(&wanted);
        }
        i = i + 1;
    }
    proof {
        assert(others@.skip(n as int) =~= Seq::<Enemy>::empty());
    }
    cur
}


/// One enemy worked through the wall pool, wall by wall: the enemy is
/// flagged not to move, pushed out of the wall, and — on contact with a
/// ready timer — its timer rearms and the wall takes one contact tick.
pub open spec fn wall_contact_fold(e: Enemy, walls: Seq<Wall>) -> (Enemy, Seq<Wall>)
    decreases walls.len(),
{
    if walls.len() == 0 {
        (e, walls)
    } else {
        let w = walls[0];
        let e1 = Enemy { should_move_next_frame: false, ..e };
        let circle = BoundingCircle { center: w.position, radius: crate::entity::OBSTACLE_RADIUS };
        let pushed = pushes_spec(circle, e1.position);
        let e2 = if pushed {
            Enemy { position: pushout_spec(circle, e1.position), ..e1 }
        } else {
            e1
        };
        let contact = pushed && e2.cooldown.is_ready_spec();
        let e3 = if contact {
            Enemy { cooldown: e2.cooldown.reset_spec(), ..e2 }
        } else {
            e2
        };
        let w2 = if contact {
            Wall { health: clamp_health(w.health - CONTACT_DAMAGE) as i64, ..w }
        } else {
            w
        };
        let rest = wall_contact_fold(e3, walls.skip(1));
        (rest.0, seq![w2] + rest.1)
    }
}

/// One enemy's whole contact step: its timer counts down; it is pushed out
/// of the player (one contact tick against the player when its timer is
/// ready, which then rearms), then worked through the walls, then pushed
/// out of the barrels.
pub open spec fn contact_one_spec(
    e: Enemy,
    walls: Seq<Wall>,
    barrels: Seq<Barrel>,
    player_pos: Vec2,
    player_health: int,
    delta_ms: u64,
) -> (Enemy, Seq<Wall>, int) {
    let e1 = Enemy { cooldown: e.cooldown.subtracted_spec(delta_ms), ..e };
    let pc = BoundingCircle { center: player_pos, radius: PLAYER_RADIUS };
    let pushed = pushes_spec(pc, e1.position);
    let e2 = if pushed {
        Enemy {
            position: pushout_spec(pc, e1.position),
            should_move_next_frame: false,
            ..e1
        }
    } else {
        e1
    };
    let contact = pushed && e2.cooldown.is_ready_spec();
    let e3 = if contact {
        Enemy { cooldown: e2.cooldown.reset_spec(), ..e2 }
    } else {
        e2
    };
    let ph2 = if contact {
        clamp_health(player_health - CONTACT_DAMAGE)
    } else {
        player_health
    };
    let wres = wall_contact_fold(e3, walls);
    let e4 = Enemy { position: pushed_out_of_barrels_spec(wres.0.position, barrels), ..wres.0 };
    (e4, wres.1, ph2)
}

/// The whole contact pass: every enemy in order takes its contact step, the
/// walls and the player's health carrying over from one enemy to the next.
pub open spec fn contact_pass_fold(
    enemies: Seq<Enemy>,
    walls: Seq<Wall>,
    barrels: Seq<Barrel>,
    player_pos: Vec2,
    player_health: int,
    delta_ms: u64,
) -> (Seq<Enemy>, Seq<Wall>, int)
    decreases enemies.len(),
{
    if enemies.len() == 0 {
        (enemies, walls, player_health)
    } else {
        let s = contact_one_spec(enemies[0], walls, barrels, player_pos, player_health, delta_ms);
        let rest = contact_pass_fold(enemies.skip(1), s.1, barrels, player_pos, s.2, delta_ms);
        (seq![s.0] + rest.0, rest.1, rest.2)
    }
}

/// The movement pass: the pool drains from the back; each enemy is clamped
/// to the room, takes one seek step toward the player, and is separated
/// first from the enemies not yet moved, then from those already moved,
/// before joining the moved pool (so the pool comes out reversed).
pub open spec fn movement_fold(
    pending: Seq<Enemy>,
    moved: Seq<Enemy>,
    player_pos: Vec2,
    delta_ms: u64,
) -> Seq<Enemy>
    decreases pending.len(),
{
    if pending.len() == 0 {
        moved
    } else {
        let e = pending.last();
        let p1 = clamp_to_room_spec(e.position, PLAYER_RADIUS as int);
        let p2 = seek_step_spec(p1, player_pos, e.speed_milli as int, delta_ms);
        let p3 = separate_spec(p2, pending.drop_last());
        let p4 = separate_spec(p3, moved);
        movement_fold(
            pending.drop_last(),
            moved.push(Enemy { position: p4, ..e }),
            player_pos,
            delta_ms,
        )
    }
}

/// Advance every enemy by one frame: tick its contact timer, resolve contact
/// with the player, the walls and the barrels (contact damages the player or
/// the wall by the fixed contact rate, at most once per enemy per frame,
/// gated by that enemy's own timer), then run the movement pass — clamp to
/// the room, one seek step toward the player, and the two-pass pairwise
/// separation against enemies not yet moved and enemies already moved. The
/// movement pass drains the pool from the back, so the pool comes out
/// reversed; every enemy keeps its health, color and speed. The exact
/// position arithmetic of each step is specified on `clamp_to_room_spec`,
/// `seek_step_spec`, `pushout_spec` and `separate_spec`.
pub fn tick_enemies(
    enemies: &mut Vec<Enemy>,
    walls: &mut Vec<Wall>,
    barrels: &Vec<Barrel>,
    player_pos: Vec2,
    player_health: &mut i64,
    delta_ms: u64,
)
    requires
        forall|k: int| 0 <= k < old(enemies)@.len() ==> (#[trigger] old(enemies)@[k]).wf(),
        forall|k: int| 0 <= k < old(walls)@.len() ==> (#[trigger] old(walls)@[k]).wf(),
        forall|k: int| 0 <= k < barrels@.len() ==> (#[trigger] barrels@[k]).wf(),
        player_pos.wf(),
        -HEALTH_LIMIT <= *old(player_health) <= HEALTH_LIMIT,
    ensures
        final(enemies)@.len() == old(enemies)@.len(),
        forall|k: int|
            0 <= k < final(enemies)@.len() ==> {
                let o = old(enemies)@[final(enemies)@.len() - 1 - k];
                &&& (#[trigger] final(enemies)@[k]).health == o.health
                &&& final(enemies)@[k].color == o.color
                &&& final(enemies)@[k].speed_milli == o.speed_milli
                &&& final(enemies)@[k].cooldown.total_ms == o.cooldown.total_ms
            },
        forall|k: int| 0 <= k < final(enemies)@.len() ==> (#[trigger] final(enemies)@[k]).wf(),
        final(walls)@.len() == old(walls)@.len(),
        forall|k: int|
            0 <= k < final(walls)@.len() ==> (#[trigger] final(walls)@[k]).position == old(walls)@[k].position && final(walls)@[k].health <= old(walls)@[k].health && final(walls)@[k].wf(),
        forall|k: int|
            0 <= k < final(walls)@.len() ==> (#[trigger] final(walls)@[k]).health >= clamp_health(
                old(walls)@[k].health - CONTACT_DAMAGE * old(enemies)@.len(),
            ),
        *final(player_health) <= *old(player_health),
        *final(player_health) >= clamp_health(
            *old(player_health) - CONTACT_DAMAGE * old(enemies)@.len(),
        ),
        -HEALTH_LIMIT <= *final(player_health) <= HEALTH_LIMIT,
        ({
            let c = contact_pass_fold(
                old(enemies)@,
                old(walls)@,
                barrels@,
                player_pos,
                *old(player_health) as int,
                delta_ms,
            );
            &&& final(walls)@ == c.1
            &&& *final(player_health) as int == c.2
            &&& final(enemies)@ == movement_fold(c.0, Seq::empty(), player_pos, delta_ms)
        }),
{
    let ghost orig_e = old(enemies)@;
    let ghost orig_w = old(walls)@;
    let ghost orig_ph = *old(player_health) as int;
    let n = enemies.len();
    let mut i: usize = 0;
    proof {
        assert(orig_e.skip(0) =~= orig_e);
        assert(enemies@.take(0) =~= Seq::<Enemy>::empty());
        assert(enemies@.take(0) + contact_pass_fold(
            orig_e.skip(0),
            walls@,
            barrels@,
            player_pos,
            *player_health as int,
            delta_ms,
        ).0 =~= contact_pass_fold(orig_e, orig_w, barrels@, player_pos, orig_ph, delta_ms).0);
    }
    // contact and contact damage
    while i < n
        invariant
            contact_pass_fold(orig_e, orig_w, barrels@, player_pos, orig_ph, delta_ms).0
                == enemies@.take(i as int) + contact_pass_fold(
                orig_e.skip(i as int),
                walls@,
                barrels@,
                player_pos,
                *player_health as int,
                delta_ms,
            ).0,
            contact_pass_fold(orig_e, orig_w, barrels@, player_pos, orig_ph, delta_ms).1
                == contact_pass_fold(
                orig_e.skip(i as int),
                walls@,
                barrels@,
                player_pos,
                *player_health as int,
                delta_ms,
            ).1,
            contact_pass_fold(orig_e, orig_w, barrels@, player_pos, orig_ph, delta_ms).2
                == contact_pass_fold(
                orig_e.skip(i as int),
                walls@,
                barrels@,
                player_pos,
                *player_health as int,
                delta_ms,
            ).2,
            orig_e == old(enemies)@,
            orig_w == old(walls)@,
            orig_ph == *old(player_health) as int,
            n == enemies@.len(),
            n == orig_e.len(),
            0 <= i <= n,
            forall|k: int| 0 <= k < enemies@.len() ==> (#[trigger] enemies@[k]).wf(),
            forall|k: int| i <= k < n ==> (#[trigger] enemies@[k]) == old(enemies)@[k],
            forall|k: int|
                0 <= k < i ==> {
                    let o = old(enemies)@[k];
                    &&& (#[trigger] enemies@[k]).health == o.health
                    &&& enemies@[k].color == o.color
                    &&& enemies@[k].speed_milli == o.speed_milli
                    &&& enemies@[k].cooldown.total_ms == o.cooldown.total_ms
                },
            walls@.len() == old(walls)@.len(),
            forall|k: int|
                0 <= k < walls@.len() ==> (#[trigger] walls@[k]).position == old(walls)@[k].position && walls@[k].health <= old(walls)@[k].health && walls@[k].wf(),
            forall|k: int|
                0 <= k < walls@.len() ==> (#[trigger] walls@[k]).health >= clamp_health(
                    old(walls)@[k].health - CONTACT_DAMAGE * i,
                ),
            forall|k: int| 0 <= k < old(walls)@.len() ==> (#[trigger] old(walls)@[k]).wf(),
            -HEALTH_LIMIT <= *old(player_health) <= HEALTH_LIMIT,
            forall|k: int| 0 <= k < barrels@.len() ==> (#[trigger] barrels@[k]).wf(),
            *player_health <= *old(player_health),
            *player_health >= clamp_health(*old(player_health) - CONTACT_DAMAGE * i),
            -HEALTH_LIMIT <= *player_health <= HEALTH_LIMIT,
            player_pos.wf(),
        decreases n - i,
    {
        let ghost walls_pre = walls@;
        let ghost health_pre = *player_health;
        let ghost e_orig = enemies@[i as int];
        let mut e: Enemy = enemies[i];
        e.cooldown.subtract(delta_ms);
        let player_circle = BoundingCircle { center: player_pos, radius: PLAYER_RADIUS };
        if colide_and_move(&player_circle, &mut e) {
            e.should_move_next_frame = false;
            if e.cooldown.is_ready() {
                e.cooldown.reset();
                *player_health = sub_health(*player_health, CONTACT_DAMAGE);
            }
        }
        let ghost e_pre_walls = e;
        let wn = walls.len();
        let mut w: usize = 0;
        proof {
            assert(walls_pre.skip(0) =~= walls_pre);
            assert(walls@.take(0) =~= Seq::<Wall>::empty());
            assert(walls@.take(0) + wall_contact_fold(e, walls_pre.skip(0)).1
                =~= wall_contact_fold(e_pre_walls, walls_pre).1);
        }
        while w < wn
            invariant
                wall_contact_fold(e_pre_walls, walls_pre).0 == wall_contact_fold(
                    e,
                    walls_pre.skip(w as int),
                ).0,
                wall_contact_fold(e_pre_walls, walls_pre).1 == walls@.take(w as int)
                    + wall_contact_fold(e, walls_pre.skip(w as int)).1,
                wn == walls@.len(),
                0 <= w <= wn,
                walls@.len() == old(walls)@.len(),
                wn == walls_pre.len(),
                forall|k: int|
                    0 <= k < walls@.len() ==> (#[trigger] walls@[k]).position == old(walls)@[k].position && walls@[k].health <= old(walls)@[k].health && walls@[k].wf(),
                forall|k: int| w <= k < wn ==> (#[trigger] walls@[k]) == walls_pre[k],
                forall|k: int|
                    0 <= k < w ==> (#[trigger] walls@[k]).health >= clamp_health(
                        walls_pre[k].health - CONTACT_DAMAGE,
                    ),
                forall|k: int| 0 <= k < wn ==> (#[trigger] walls_pre[k]).health <= old(walls)@[k].health,
                forall|k: int| 0 <= k < wn ==> (#[trigger] walls_pre[k]).health >= -HEALTH_LIMIT,
                e.wf(),
                e.health == old(enemies)@[i as int].health,
                e.color == old(enemies)@[i as int].color,
                e.speed_milli == old(enemies)@[i as int].speed_milli,
                e.cooldown.total_ms == old(enemies)@[i as int].cooldown.total_ms,
                i < n,
            decreases wn - w,
        {
            let ghost e_step = e;
            let ghost walls_step = walls@;
            e.should_move_next_frame = false;
            let wall_circle = {
                let wall = &walls[w];
                BoundingCircle { center: wall.position, radius: crate::entity::OBSTACLE_RADIUS }
            };
            if colide_and_move(&wall_circle, &mut e) {
                if e.cooldown.is_ready() {
                    e.cooldown.reset();
                    let slot = &mut walls[w];
                    slot.health = sub_health(slot.health, CONTACT_DAMAGE);
                }
            }
            proof {
                let ww = w as int;
                assert(walls_pre.skip(ww)[0] == walls_pre[ww]);
                assert(walls_pre.skip(ww).skip(1) =~= walls_pre.skip(ww + 1));
                assert(walls_step[ww] == walls_pre[ww]);
                let rest = wall_contact_fold(e, walls_pre.skip(ww + 1));
                assert(wall_contact_fold(e_step, walls_pre.skip(ww)).0 == rest.0);
                assert(wall_contact_fold(e_step, walls_pre.skip(ww)).1 =~= seq![walls@[ww]]
                    + rest.1);
                assert(walls_step.take(ww) + (seq![walls@[ww]] + rest.1) =~= walls@.take(ww + 1)
                    + rest.1);
            }
            w = w + 1;
        }
        let bpos = pushed_out_of_barrels(barrels, e.position);
        e.position = bpos;
        proof {
            // this iteration computed exactly the contact step of this enemy
            let step = contact_one_spec(
                e_orig,
                walls_pre,
                barrels@,
                player_pos,
                health_pre as int,
                delta_ms,
            );
            assert(e == step.0);
            assert(walls@ =~= step.1) by {
                assert(walls_pre.skip(wn as int) =~= Seq::<Wall>::empty());
                assert(walls@.take(wn as int) =~= walls@);
            }
            assert(*player_health as int == step.2);
        }
        let slot = &mut enemies[i];
        *slot = e;
        proof {
            // stitch the pass fold forward by one enemy
            let ii = i as int;
            assert(orig_e.skip(ii)[0] == orig_e[ii]);
            assert(orig_e.skip(ii).skip(1) =~= orig_e.skip(ii + 1));
            assert(e_orig == orig_e[ii]);
            let rest = contact_pass_fold(
                orig_e.skip(ii + 1),
                walls@,
                barrels@,
                player_pos,
                *player_health as int,
                delta_ms,
            );
            assert(contact_pass_fold(
                orig_e.skip(ii),
                walls_pre,
                barrels@,
                player_pos,
                health_pre as int,
                delta_ms,
            ).0 =~= seq![e] + rest.0);
            assert(enemies@.take(ii) + (seq![e] + rest.0) =~= enemies@.take(ii + 1) + rest.0);
        }
        proof {
            assert forall|k: int|
                0 <= k < walls@.len() implies (#[trigger] walls@[k]).health >= clamp_health(
                old(walls)@[k].health - CONTACT_DAMAGE * (i + 1),
            ) by {
                lemma_damage_step(
                    old(walls)@[k].health as int,
                    walls_pre[k].health as int,
                    walls@[k].health as int,
                    i as int,
                );
            }
            lemma_damage_step(
                *old(player_health) as int,
                health_pre as int,
                *player_health as int,
                i as int,
            );
        }
        i = i + 1;
    }
    // movement: drain from the back, two-pass separation
    let ghost pre_move = enemies@;
    let mut moved: Vec<Enemy> = Vec::new();
    proof {
        assert(moved@ =~= Seq::<Enemy>::empty());
    }
    loop
        invariant
            movement_fold(pre_move, Seq::empty(), player_pos, delta_ms) == movement_fold(
                enemies@,
                moved@,
                player_pos,
                delta_ms,
            ),
            enemies@.len() + moved@.len() == pre_move.len(),
            forall|k: int| 0 <= k < enemies@.len() ==> (#[trigger] enemies@[k]) == pre_move[k],
            forall|k: int|
                0 <= k < moved@.len() ==> {
                    let o = pre_move[pre_move.len() - 1 - k];
                    &&& (#[trigger] moved@[k]).health == o.health
                    &&& moved@[k].color == o.color
                    &&& moved@[k].speed_milli == o.speed_milli
                    &&& moved@[k].cooldown.total_ms == o.cooldown.total_ms
                    &&& moved@[k].wf()
                },
            forall|k: int| 0 <= k < enemies@.len() ==> (#[trigger] enemies@[k]).wf(),
            player_pos.wf(),
        ensures
            enemies@.len() == 0,
            moved@.len() == pre_move.len(),
            moved@ == movement_fold(pre_move, Seq::empty(), player_pos, delta_ms),
            forall|k: int|
                0 <= k < moved@.len() ==> {
                    let o = pre_move[pre_move.len() - 1 - k];
                    &&& (#[trigger] moved@[k]).health == o.health
                    &&& moved@[k].color == o.color
                    &&& moved@[k].speed_milli == o.speed_milli
                    &&& moved@[k].cooldown.total_ms == o.cooldown.total_ms
                    &&& moved@[k].wf()
                },
        decreases enemies@.len(),
    {
        let popped = enemies.pop();
        match popped {
            None => {
                break;
            },
            Some(mut e) => {
                let ghost pending_pre = enemies@.push(e);
                let ghost moved_pre = moved@;
                let ghost e0 = e;
                collide_walls(&mut e);
                let np = seek_step(e.position, player_pos, e.speed_milli, delta_ms);
                e.position = np;
                let p1 = separate_from(e.position, enemies);
                e.position = p1;
                let p2 = separate_from(e.position, &moved);
                e.position = p2;
                moved.push(e);
                proof {
                    assert(pending_pre.last() == e0);
                    assert(pending_pre.drop_last() =~= enemies@);
                    assert(e == Enemy {
                        position: separate_spec(
                            separate_spec(
                                seek_step_spec(
                                    clamp_to_room_spec(e0.position, PLAYER_RADIUS as int),
                                    player_pos,
                                    e0.speed_milli as int,
                                    delta_ms,
                                ),
                                enemies@,
                            ),
                            moved_pre,
                        ),
                        ..e0
                    });
                    assert(movement_fold(pending_pre, moved_pre, player_pos, delta_ms)
                        == movement_fold(enemies@, moved@, player_pos, delta_ms));
                }
            },
        }
    }
    enemies.append(&mut moved);
    proof {
        assert(enemies@ =~= movement_fold(
            contact_pass_fold(orig_e, orig_w, barrels@, player_pos, orig_ph, delta_ms).0,
            Seq::empty(),
            player_pos,
            delta_ms,
        )) by {
            assert(orig_e.skip(n as int) =~= Seq::<Enemy>::empty());
            assert(pre_move.take(n as int) =~= pre_move);
        }
    }
}

/// One more contact tick cannot take health below the running bound.
proof fn lemma_damage_step(x: int, mid: int, fin: int, i: int)
    requires
        i >= 0,
        -HEALTH_LIMIT <= x <= HEALTH_LIMIT,
        -HEALTH_LIMIT <= mid <= HEALTH_LIMIT,
        mid >= clamp_health(x - CONTACT_DAMAGE * i),
        fin >= clamp_health(mid - CONTACT_DAMAGE) || fin >= mid,
    ensures
        fin >= clamp_health(x - CONTACT_DAMAGE * (i + 1)),
{
    assert(CONTACT_DAMAGE * (i + 1) == CONTACT_DAMAGE * i + CONTACT_DAMAGE) by (nonlinear_arith);
    assert(CONTACT_DAMAGE * i >= 0) by (nonlinear_arith)
        requires
            i >= 0,
    ;
}

/// Push a position out of every wall it overlaps, one pushout per wall in
/// pool order, cumulatively.
pub open spec fn pushed_out_of_walls_spec(pos: Vec2, walls: Seq<Wall>) -> Vec2
    decreases walls.len(),
{
    if walls.len() == 0 {
        pos
    } else {
        pushed_out_of_walls_spec(
            pushout_spec(
                BoundingCircle { center: walls[0].position, radius: crate::entity::OBSTACLE_RADIUS },
                pos,
            ),
            walls.skip(1),
        )
    }
}

pub fn pushed_out_of_walls(walls: &Vec<Wall>, pos: Vec2) -> (np: Vec2)
    requires
        pos.wf(),
        forall|k: int| 0 <= k < walls@.len() ==> (#[trigger] walls@[k]).wf(),
    ensures
        np == pushed_out_of_walls_spec(pos, walls@),
        np.wf(),
{
    let mut cur = pos;
    let n = walls.len();
    let mut i: usize = 0;
    proof {
        assert(walls@.skip(0) =~= walls@);
    }
    while i < n
        invariant
            n == walls@.len(),
            0 <= i <= n,
            cur.wf(),
            pushed_out_of_walls_spec(pos, walls@) == pushed_out_of_walls_spec(
                cur,
                walls@.skip(i as int),
            ),
            forall|k: int| 0 <= k < walls@.len() ==> (#[trigger] walls@[k]).wf(),
        decreases n - i,
    {
        let circle = {
            let w = &walls[i];
            BoundingCircle { center: w.position, radius: crate::entity::OBSTACLE_RADIUS }
        };
        proof {
            assert(walls@.skip(i as int)[0] == walls@[i as int]);
            assert(walls@.skip(i as int).skip(1) =~= walls@.skip(i as int + 1));
        }
        let (np, _pushed) = resolve_push(&circle, cur);
        cur = np;
        i = i + 1;
    }
    proof {
        assert(walls@.skip(n as int) =~= Seq::<Wall>::empty());
    }
    cur
}

/// Push a position out of every barrel it overlaps, one pushout per barrel
/// in pool order, cumulatively.
pub open spec fn pushed_out_of_barrels_spec(pos: Vec2, barrels: Seq<Barrel>) -> Vec2
    decreases barrels.len(),
{
    if barrels.len() == 0 {
        pos
    } else {
        pushed_out_of_barrels_spec(
            pushout_spec(
                BoundingCircle { center: barrels[0].position, radius: crate::entity::OBSTACLE_RADIUS },
                pos,
            ),
            barrels.skip(1),
        )
    }
}

pub fn pushed_out_of_barrels(barrels: &Vec<Barrel>, pos: Vec2) -> (np: Vec2)
    requires
        pos.wf(),
        forall|k: int| 0 <= k < barrels@.len() ==> (#[trigger] barrels@[k]).wf(),
    ensures
        np == pushed_out_of_barrels_spec(pos, barrels@),
        np.wf(),
{
    let mut cur = pos;
    let n = barrels.len();
    let mut i: usize = 0;
    proof {
        assert(barrels@.skip(0) =~= barrels@);
    }
    while i < n
        invariant
            n == barrels@.len(),
            0 <= i <= n,
            cur.wf(),
            pushed_out_of_barrels_spec(pos, barrels@) == pushed_out_of_barrels_spec(
                cur,
                barrels@.skip(i as int),
            ),
            forall|k: int| 0 <= k < barrels@.len() ==> (#[trigger] barrels@[k]).wf(),
        decreases n - i,
    {
        let circle = {
            let b = &barrels[i];
            BoundingCircle { center: b.position, radius: crate::entity::OBSTACLE_RADIUS }
        };
        proof {
            assert(barrels@.skip(i as int)[0] == barrels@[i as int]);
            assert(barrels@.skip(i as int).skip(1) =~= barrels@.skip(i as int + 1));
        }
        let (np, _pushed) = resolve_push(&circle, cur);
        cur = np;
        i = i + 1;
    }
    proof {
        assert(barrels@.skip(n as int) =~= Seq::<Barrel>::empty());
    }
    cur
}


} // verus!
