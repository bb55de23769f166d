use std::collections::VecDeque;

use vstd::prelude::*;

use crate::alerts::{push_alert, tick_alerts, Alert, ALERT_QUEUE_MAX};
use crate::bullets::{advance_bullets, cull_bullets};
use crate::color::Color;
use crate::combat::{burry_dead, do_bullet_hits, explode_against, BLAST_DAMAGE, BLAST_RADIUS};
use crate::cooldown::Cooldown;
use crate::entity::{
    sub_health, Barrel, Bullet, BoundingCircle, Enemy, Explosion, Pickup, Target, Wall,
    OBSTACLE_RADIUS, PLAYER_RADIUS, WALL_HEALTH,
};
use crate::geom::Vec2;
use crate::movement::{clamp_to_room, resolve_push, tick_enemies};
use crate::pickups::{check_pickups, do_pickup_respawn, pickup_locations};
use crate::player::{AmmoPickup, Player};
use crate::progression::{
    apply_upgrade, drain_ready_upgrades, upgrades_sorted, Multiplier, Upgrade,
};
use crate::rng::rand_range_usize;
use crate::wave::wave_things;

verus! {

/// A placed barrel's starting health, in hundredths.
pub const PLACED_BARREL_HEALTH: i64 = 100;

/// The whole simulation state: everything the per-frame update reads and
/// writes. Rendering and input stay outside; they only look at these fields
/// and call the update entry points.
pub struct Game {
    pub player: Player,
    pub bullets: Vec<Bullet>,
    pub enemies: Vec<Enemy>,
    pub now_ms: u64,
    pub score: u64,
    pub score_multiplier: Multiplier,
    pub walls: Vec<Wall>,
    pub barrels: Vec<Barrel>,
    pub explosions: Vec<Explosion>,
    pub wave_count: usize,
    pub wave_timer: Cooldown,
    pub pickups: Vec<Pickup>,
    pub possible_pickups: Vec<AmmoPickup>,
    pub pickup_respawn: Cooldown,
    pub messages: VecDeque<Alert>,
    pub upgrades: Vec<Upgrade>,
    pub paused: bool,
}

impl Game {
    /// Well-formedness of the whole state: every part in its own band,
    /// every bullet born no later than now, the alert queue within its
    /// bound, and the upgrade queue sorted by threshold.
    pub open spec fn wf(self) -> bool {
        &&& self.player.wf()
        &&& (forall|i: int| 0 <= i < self.bullets@.len() ==> (#[trigger] self.bullets@[i]).wf())
        &&& (forall|i: int|
            0 <= i < self.bullets@.len() ==> (#[trigger] self.bullets@[i]).birth_ms
                <= self.now_ms)
        &&& (forall|i: int| 0 <= i < self.enemies@.len() ==> (#[trigger] self.enemies@[i]).wf())
        &&& (forall|i: int| 0 <= i < self.walls@.len() ==> (#[trigger] self.walls@[i]).wf())
        &&& (forall|i: int| 0 <= i < self.barrels@.len() ==> (#[trigger] self.barrels@[i]).wf())
        &&& (forall|i: int| 0 <= i < self.pickups@.len() ==> (#[trigger] self.pickups@[i]).wf())
        &&& (forall|i: int|
            0 <= i < self.explosions@.len() ==> (#[trigger] self.explosions@[i]).wf())
        &&& self.score_multiplier.wf()
        &&& self.wave_timer.wf()
        &&& self.pickup_respawn.wf()
        &&& self.messages@.len() <= ALERT_QUEUE_MAX
        &&& (forall|i: int| 0 <= i < self.messages@.len() ==> (#[trigger] self.messages@[i]).wf())
        &&& upgrades_sorted(self.upgrades@)
    }

    /// A fresh game: the player at the center, one slow elite enemy above,
    /// the pickup grid laid out, the full upgrade ladder queued, the wave
    /// timer already elapsed so the first wave comes at once.
    pub fn new() -> (g: Game)
        ensures
            g.wf(),
            g.now_ms == 0,
            g.score == 0,
            g.paused == false,
            g.player.health == crate::player::PLAYER_HEALTH_MAX,
            g.enemies@.len() == 1,
            g.bullets@.len() == 0,
            g.walls@.len() == 0,
            g.barrels@.len() == 0,
            g.upgrades@ == crate::progression::spec_upgrade_list(),
    {
        let mut pickups: Vec<Pickup> = Vec::new();
        let locations = pickup_locations();
        let n = locations.len();
        let mut i: usize = 0;
        while i < n
            invariant
                n == locations@.len(),
                0 <= i <= n,
                forall|k: int| 0 <= k < locations@.len() ==> (#[trigger] locations@[k]).wf(),
                forall|k: int| 0 <= k < pickups@.len() ==> (#[trigger] pickups@[k]).wf(),
            decreases n - i,
        {
            pickups.push(Pickup { position: locations[i] });
            i = i + 1;
        }
        let mut enemies: Vec<Enemy> = Vec::new();
        enemies.push(
            Enemy {
                position: Vec2 { x: 0, y: 5000 },
                color: Color::purple(),
                health: 100,
                speed_milli: 100,
                cooldown: Cooldown::waiting(1_000_000),
                should_move_next_frame: true,
            },
        );
        Game {
            player: Player::new(),
            bullets: Vec::new(),
            enemies,
            now_ms: 0,
            score: 0,
            score_multiplier: Multiplier::new(),
            walls: Vec::new(),
            barrels: Vec::new(),
            explosions: Vec::new(),
            wave_count: 3,
            wave_timer: Cooldown::ready(10_000),
            pickups,
            possible_pickups: Vec::new(),
            pickup_respawn: Cooldown::waiting(5000),
            messages: VecDeque::new(),
            upgrades: Upgrade::upgrade_list(),
            paused: false,
        }
    }

    /// Whether a wall already sits exactly at this position.
    pub open spec fn has_wall_at_spec(self, pos: Vec2) -> bool {
        exists|i: int| 0 <= i < self.walls@.len() && (#[trigger] self.walls@[i]).position == pos
    }

    pub fn has_wall_at(&self, pos: Vec2) -> (r: bool)
        ensures
            r == self.has_wall_at_spec(pos),
    {
        let n = self.walls.len();
        let mut i: usize = 0;
        while i < n
            invariant
                n == self.walls@.len(),
                0 <= i <= n,
                forall|k: int| 0 <= k < i ==> (#[trigger] self.walls@[k]).position != pos,
            decreases n - i,
        {
            let same = {
                let w = &self.walls[i];
                w.position.x == pos.x && w.position.y == pos.y
            };
            if same {
                return true;
            }
            i = i + 1;
        }
        false
    }

    /// Whether a barrel already sits exactly at this position.
    pub open spec fn has_barrel_at_spec(self, pos: Vec2) -> bool {
        exists|i: int| 0 <= i < self.barrels@.len() && (#[trigger] self.barrels@[i]).position == pos
    }

    pub fn has_barrel_at(&self, pos: Vec2) -> (r: bool)
        ensures
            r == self.has_barrel_at_spec(pos),
    {
        let n = self.barrels.len();
        let mut i: usize = 0;
        while i < n
            invariant
                n == self.barrels@.len(),
                0 <= i <= n,
                forall|k: int| 0 <= k < i ==> (#[trigger] self.barrels@[k]).position != pos,
            decreases n - i,
        {
            let same = {
                let b = &self.barrels[i];
                b.position.x == pos.x && b.position.y == pos.y
            };
            if same {
                return true;
            }
            i = i + 1;
        }
        false
    }

    /// The grid cell one step ahead of the player along the dominant facing
    /// axis, snapped to the nearest whole unit.
    pub open spec fn place_position_spec(self) -> Vec2 {
        let f = self.player.facing;
        let step = if abs_spec(f.x) > abs_spec(f.y) {
            if f.x > 0 {
                Vec2 { x: 1000i64, y: 0i64 }
            } else {
                Vec2 { x: -1000i64, y: 0i64 }
            }
        } else {
            if f.y > 0 {
                Vec2 { x: 0i64, y: 1000i64 }
            } else {
                Vec2 { x: 0i64, y: -1000i64 }
            }
        };
        self.player.position.add_spec(step).round_unit_spec()
    }

    /// Try to place the held object one grid cell ahead: a wall with the
    /// wall placer in hand, a barrel with the barrel placer. Placement is
    /// refused — and nothing changes — exactly when the cell is already
    /// occupied by a wall or a barrel, or no placer is in hand.
    pub fn place_object(&mut self) -> (placed: bool)
        requires
            old(self).wf(),
        ensures
            final(self).wf(),
            placed == (!old(self).has_wall_at_spec(old(self).place_position_spec()) && !old(self).has_barrel_at_spec(old(self).place_position_spec()) && (old(self).player.selected_weapon == 3 || old(self).player.selected_weapon == 4)),
            placed && old(self).player.selected_weapon == 4 ==> final(self).walls@ == old(self).walls@.push(
                Wall { position: old(self).place_position_spec(), health: WALL_HEALTH },
            ) && final(self).barrels@ == old(self).barrels@,
            placed && old(self).player.selected_weapon == 3 ==> final(self).barrels@ == old(self).barrels@.push(
                Barrel { position: old(self).place_position_spec(), health: PLACED_BARREL_HEALTH },
            ) && final(self).walls@ == old(self).walls@,
            !placed ==> final(self).walls@ == old(self).walls@ && final(self).barrels@ == old(self).barrels@,
            final(self).player == old(self).player,
            final(self).bullets@ == old(self).bullets@,
            final(self).enemies@ == old(self).enemies@,
            final(self).score == old(self).score,
            final(self).now_ms == old(self).now_ms,
    {
        let f = self.player.facing;
        let step: Vec2 = if abs_i64(f.x) > abs_i64(f.y) {
            if f.x > 0 {
                Vec2 { x: 1000, y: 0 }
            } else {
                Vec2 { x: -1000, y: 0 }
            }
        } else {
            if f.y > 0 {
                Vec2 { x: 0, y: 1000 }
            } else {
                Vec2 { x: 0, y: -1000 }
            }
        };
        let position = self.player.position.add(&step).round_unit();
        if self.has_wall_at(position) || self.has_barrel_at(position) {
            return false;
        }
        if self.player.selected_weapon == 4 {
            self.walls.push(Wall { position, health: WALL_HEALTH });
            true
        } else if self.player.selected_weapon == 3 {
            self.barrels.push(Barrel { position, health: PLACED_BARREL_HEALTH });
            true
        } else {
            false
        }
    }

    /// The weapon after a spent shot: the rate timer rearmed, one round gone.
    pub open spec fn fired_weapon_spec(w: crate::weapon::Weapon) -> crate::weapon::Weapon {
        crate::weapon::Weapon {
            cooldown: w.cooldown.reset_spec(),
            ammo: w.ammo.decrement_spec(),
            ..w
        }
    }

    /// The weapon after a refused placement: the rate timer rearmed, the
    /// ammo untouched.
    pub open spec fn rearmed_weapon_spec(w: crate::weapon::Weapon) -> crate::weapon::Weapon {
        crate::weapon::Weapon { cooldown: w.cooldown.reset_spec(), ..w }
    }

    /// Fire the held weapon, if it can fire: the rate timer rearms; a
    /// shooting weapon adds its pellets to the pool (each in its spread
    /// cone); a placer instead tries to place its object, and on a refused
    /// placement the ammo is not spent. A spent shot costs exactly one
    /// round, and a weapon that runs dry hands the selection back to the
    /// first weapon.
    pub fn shoot(&mut self)
        requires
            old(self).wf(),
        ensures
            final(self).wf(),
            !old(self).player.weapons@[old(self).player.selected_weapon as int].can_fire_spec()
                ==> *final(self) == *old(self),
            final(self).bullets@.len() >= old(self).bullets@.len(),
            final(self).bullets@.take(old(self).bullets@.len() as int) == old(self).bullets@,
            forall|k: int|
                old(self).bullets@.len() <= k < final(self).bullets@.len()
                    ==> crate::weapon::in_spread_cone(
                    old(self).player.weapons@[old(self).player.selected_weapon as int].kind,
                    old(self).player.weapons@[old(self).player.selected_weapon as int].damage,
                    old(self).player.facing,
                    old(self).player.position,
                    old(self).now_ms,
                    k - old(self).bullets@.len(),
                    #[trigger] final(self).bullets@[k],
                ),
            ({
                let sel = old(self).player.selected_weapon as int;
                let ow = old(self).player.weapons@[sel];
                ow.can_fire_spec() && !old(self).player.weapon_is_object_spec() ==> {
                    let fired = Game::fired_weapon_spec(ow);
                    &&& final(self).player.weapons@ == old(self).player.weapons@.update(sel, fired)
                    &&& final(self).bullets@.len() == old(self).bullets@.len()
                        + ow.bullet_count_spec()
                    &&& final(self).player.selected_weapon as int == (if fired.ammo.is_empty_spec()
                        && !old(self).player.weapons@.update(sel, fired)[0].ammo.is_empty_spec() {
                        0int
                    } else {
                        sel
                    })
                    &&& final(self).walls@ == old(self).walls@
                    &&& final(self).barrels@ == old(self).barrels@
                }
            }),
            ({
                let sel = old(self).player.selected_weapon as int;
                let ow = old(self).player.weapons@[sel];
                let pos = old(self).place_position_spec();
                let placed = !old(self).has_wall_at_spec(pos) && !old(self).has_barrel_at_spec(pos);
                ow.can_fire_spec() && old(self).player.weapon_is_object_spec() ==> {
                    &&& final(self).bullets@ == old(self).bullets@
                    &&& (placed ==> final(self).player.weapons@ == old(self).player.weapons@.update(
                        sel,
                        Game::fired_weapon_spec(ow),
                    ))
                    &&& (!placed ==> final(self).player.weapons@ == old(
                        self,
                    ).player.weapons@.update(sel, Game::rearmed_weapon_spec(ow)))
                    &&& (placed && sel == 4 ==> final(self).walls@ == old(self).walls@.push(
                        Wall { position: pos, health: WALL_HEALTH },
                    ) && final(self).barrels@ == old(self).barrels@)
                    &&& (placed && sel == 3 ==> final(self).barrels@ == old(self).barrels@.push(
                        Barrel { position: pos, health: PLACED_BARREL_HEALTH },
                    ) && final(self).walls@ == old(self).walls@)
                    &&& (!placed ==> final(self).walls@ == old(self).walls@ && final(self).barrels@
                        == old(self).barrels@)
                    &&& (!placed ==> final(self).player.selected_weapon as int == sel)
                    &&& (placed ==> final(self).player.selected_weapon as int == (if Game::fired_weapon_spec(
                        ow,
                    ).ammo.is_empty_spec() && !old(self).player.weapons@.update(
                        sel,
                        Game::fired_weapon_spec(ow),
                    )[0].ammo.is_empty_spec() {
                        0int
                    } else {
                        sel
                    }))
                }
            }),
            final(self).now_ms == old(self).now_ms,
            final(self).score == old(self).score,
            final(self).enemies@ == old(self).enemies@,
    {
        let ghost sel = self.player.selected_weapon as int;
        let ghost ow = self.player.weapons@[sel];
        let can = {
            let w = self.player.weapon();
            w.can_fire()
        };
        if !can {
            return ;
        }
        {
            let w = self.player.weapon_mut();
            w.cooldown.reset();
        }
        proof {
            assert(self.player.weapons@ =~= old(self).player.weapons@.update(
                sel,
                Game::rearmed_weapon_spec(ow),
            ));
        }
        if !self.player.weapon_is_object() {
            let (facing, position, now) = (self.player.facing, self.player.position, self.now_ms);
            let new_bullets = {
                let w = self.player.weapon();
                w.bullets(facing, position, now)
            };
            let ghost mid = *self;
            let n = new_bullets.len();
            let ghost pre = self.bullets@;
            let mut i: usize = 0;
            while i < n
                invariant
                    n == new_bullets@.len(),
                    0 <= i <= n,
                    eq_except_bullets(*self, mid),
                    self.bullets@.len() == pre.len() + i,
                    self.bullets@.take(pre.len() as int) == pre,
                    forall|k: int|
                        pre.len() <= k < self.bullets@.len() ==> #[trigger] self.bullets@[k]
                            == new_bullets@[k - pre.len()],
                    forall|k: int|
                        0 <= k < new_bullets@.len() ==> (#[trigger] new_bullets@[k]).wf(),
                    forall|k: int|
                        0 <= k < new_bullets@.len() ==> (#[trigger] new_bullets@[k]).birth_ms
                            == mid.now_ms,
                    forall|k: int| 0 <= k < self.bullets@.len() ==> (#[trigger] self.bullets@[k]).wf(),
                    forall|k: int|
                        0 <= k < pre.len() ==> (#[trigger] self.bullets@[k]).birth_ms
                            <= mid.now_ms,
                decreases n - i,
            {
                self.bullets.push(new_bullets[i]);
                proof {
                    assert(self.bullets@.take(pre.len() as int) =~= pre);
                }
                i = i + 1;
            }
        } else {
            if !self.place_object() {
                proof {
                    assert(self.bullets@.take(old(self).bullets@.len() as int) =~= self.bullets@);
                }
                return ;
            }
        }
        {
            let w = self.player.weapon_mut();
            w.ammo.decrement();
        }
        proof {
            assert(self.player.weapons@ =~= old(self).player.weapons@.update(
                sel,
                Game::fired_weapon_spec(ow),
            ));
        }
        let empty = {
            let w = self.player.weapon();
            w.ammo.is_empty()
        };
        if empty {
            self.player.select_weapon(0);
        }
    }

}

/// Absolute value, as a spec.
pub open spec fn abs_spec(x: i64) -> int {
    if x >= 0 {
        x as int
    } else {
        -x as int
    }
}

fn abs_i64(x: i64) -> (r: i64)
    requires
        x > i64::MIN,
    ensures
        r as int == abs_spec(x),
{
    if x >= 0 {
        x
    } else {
        -x
    }
}

/// The score after a run of kills, each paying the kill award at the
/// multiplier value it found and stepping the multiplier.
pub open spec fn kill_fold_score(score: u64, mult: u32, dead: Seq<Enemy>) -> u64
    decreases dead.len(),
{
    if dead.len() == 0 {
        score
    } else {
        kill_fold_score(
            kill_score_spec(score, mult, dead[0].color),
            if mult == crate::progression::MULTIPLIER_MAX {
                mult
            } else {
                (mult + 1) as u32
            },
            dead.skip(1),
        )
    }
}

/// The simulation thread of one active frame, pinned end to end up to the
/// wave director's random placements (the one witness): the aged explosion
/// pool; the spawned enemies appended; the bullet pool culled and advanced,
/// then drained by the three hit passes in order; the player clamped and
/// pushed out of the obstacles; the dead buried and scored (score and
/// multiplier folded kill by kill); the survivors put through the contact
/// and movement passes; walls and barrels hit, buried, and the dead barrels
/// detonated over every pool and the player; the wave counter and both
/// timers stepped. The pickup, alert and upgrade side effects are specified
/// on their own functions.
#[verifier::opaque]
pub open spec fn frame_sim_rel(pre: Game, post: Game, delta_ms: u64, spawned: Seq<Enemy>) -> bool {
    let now2 = (pre.now_ms + delta_ms) as u64;
    let triggered = delta_ms >= pre.wave_timer.remaining_ms;
    let pool0 = pre.enemies@ + spawned;
    let prepared = crate::bullets::advanced_bullets_spec(
        crate::bullets::culled_bullets_spec(pre.bullets@, now2),
        delta_ms,
    );
    let ppos = crate::movement::pushed_out_of_barrels_spec(
        crate::movement::pushed_out_of_walls_spec(
            crate::movement::clamp_to_room_spec(pre.player.position, PLAYER_RADIUS as int),
            pre.walls@,
        ),
        pre.barrels@,
    );
    let hits1 = crate::combat::bullet_hits_fold(pool0, prepared, Some(ppos));
    let dead = hits1.0.filter(|d: Enemy| d.t_health() <= 0);
    let alive = hits1.0.filter(|d: Enemy| d.t_health() > 0);
    let c = crate::movement::contact_pass_fold(
        alive,
        pre.walls@,
        pre.barrels@,
        ppos,
        pre.player.health as int,
        delta_ms,
    );
    let moved = crate::movement::movement_fold(c.0, Seq::empty(), ppos, delta_ms);
    let hits2 = crate::combat::bullet_hits_fold(c.1, hits1.1, None);
    let walls_alive = hits2.0.filter(|d: Wall| d.t_health() > 0);
    let hits3 = crate::combat::bullet_hits_fold(pre.barrels@, hits2.1, None);
    let barrels_alive = hits3.0.filter(|d: Barrel| d.t_health() > 0);
    let dead_barrels = hits3.0.filter(|d: Barrel| d.t_health() <= 0);
    let aged_ex = Game::aged_explosions_spec(pre.explosions@, delta_ms);
    let r = Game::explode_fold(dead_barrels, walls_alive, moved, barrels_alive, ppos, c.2, aged_ex);
    &&& (triggered ==> spawned.len() == crate::wave::WAVE_BASE_COUNT
        + pre.score_multiplier.current && (forall|k: int|
        0 <= k < spawned.len() ==> crate::wave::spawned_in_allowed_box(
            pre.player.position,
            #[trigger] spawned[k],
        )))
    &&& (!triggered ==> spawned.len() == 0)
    &&& post.bullets@ == hits3.1
    &&& post.enemies@ == r.1
    &&& post.walls@ == r.0
    &&& post.barrels@ == r.2
    &&& post.player.position == r.3
    &&& post.player.health as int == r.4
    &&& post.explosions@ == r.5
    &&& post.score == kill_fold_score(pre.score, pre.score_multiplier.current, dead)
    &&& post.score_multiplier == crate::progression::subtracted_multiplier_spec(
        crate::progression::incremented_n_spec(pre.score_multiplier, dead.len()),
        delta_ms,
    )
    &&& post.wave_count == (if triggered {
        crate::wave::sat_inc_spec(pre.wave_count)
    } else {
        pre.wave_count
    })
    &&& post.wave_timer == (if triggered {
        pre.wave_timer.subtracted_spec(delta_ms).reset_spec()
    } else {
        pre.wave_timer.subtracted_spec(delta_ms)
    })
}

/// A concrete spawn sequence witnesses the frame relation.
proof fn lemma_frame_sim_witness(pre: Game, post: Game, delta_ms: u64, spawned: Seq<Enemy>)
    requires
        frame_sim_rel(pre, post, delta_ms, spawned),
    ensures
        exists|w: Seq<Enemy>|
            #![trigger frame_sim_rel(pre, post, delta_ms, w)]
            frame_sim_rel(pre, post, delta_ms, w),
{
    assert(frame_sim_rel(pre, post, delta_ms, spawned));
}

/// Two game states equal in everything but the bullet pool.
pub open spec fn eq_except_bullets(a: Game, b: Game) -> bool {
    &&& a.player == b.player
    &&& a.enemies@ == b.enemies@
    &&& a.now_ms == b.now_ms
    &&& a.score == b.score
    &&& a.score_multiplier == b.score_multiplier
    &&& a.walls@ == b.walls@
    &&& a.barrels@ == b.barrels@
    &&& a.explosions@ == b.explosions@
    &&& a.wave_count == b.wave_count
    &&& a.wave_timer == b.wave_timer
    &&& a.pickups@ == b.pickups@
    &&& a.possible_pickups@ == b.possible_pickups@
    &&& a.pickup_respawn == b.pickup_respawn
    &&& a.messages@ == b.messages@
    &&& a.upgrades@ == b.upgrades@
    &&& a.paused == b.paused
}

impl Game {
    /// One explosion record a frame later: its timer counted down.
    pub open spec fn aged_explosion_spec(e: Explosion, delta_ms: u64) -> Explosion {
        Explosion { cooldown: e.cooldown.subtracted_spec(delta_ms), ..e }
    }

    /// The explosion pool one frame later: every timer counted down, the
    /// elapsed records gone, the rest in their old order.
    pub open spec fn aged_explosions_spec(s: Seq<Explosion>, delta_ms: u64) -> Seq<Explosion> {
        s.map_values(|e: Explosion| Game::aged_explosion_spec(e, delta_ms)).filter(
            |e: Explosion| !e.cooldown.is_ready_spec(),
        )
    }

    /// Tick every explosion's timer and drop the ones that have run out:
    /// exactly the aged partition.
    fn tick_explosions(&mut self, delta_ms: u64)
        requires
            forall|i: int|
                0 <= i < old(self).explosions@.len() ==> (#[trigger] old(self).explosions@[i]).wf(),
        ensures
            final(self).explosions@ == Game::aged_explosions_spec(old(self).explosions@, delta_ms),
            final(self).explosions@.len() <= old(self).explosions@.len(),
            forall|i: int|
                0 <= i < final(self).explosions@.len() ==> (#[trigger] final(self).explosions@[i]).wf(),
            forall|i: int|
                0 <= i < final(self).explosions@.len() ==> !(#[trigger] final(self).explosions@[i]).cooldown.is_ready_spec(),
            eq_except_explosions(*final(self), *old(self)),
    {
        let ghost orig = self.explosions@;
        let ghost mid = *self;
        let ghost tick = |e: Explosion| Game::aged_explosion_spec(e, delta_ms);
        let ghost live = |e: Explosion| !e.cooldown.is_ready_spec();
        let mut kept: Vec<Explosion> = Vec::new();
        let n = self.explosions.len();
        let mut i: usize = 0;
        proof {
            assert(orig.take(0).map_values(tick) =~= Seq::<Explosion>::empty());
            assert(kept@ =~= orig.take(0).map_values(tick).filter(live));
        }
        while i < n
            invariant
                n == orig.len(),
                self.explosions@ == orig,
                eq_except_explosions(*self, mid),
                0 <= i <= n,
                kept@ == orig.take(i as int).map_values(tick).filter(live),
                tick == (|e: Explosion| Game::aged_explosion_spec(e, delta_ms)),
                live == (|e: Explosion| !e.cooldown.is_ready_spec()),
                forall|k: int| 0 <= k < orig.len() ==> (#[trigger] orig[k]).wf(),
                forall|k: int| 0 <= k < kept@.len() ==> (#[trigger] kept@[k]).wf(),
                forall|k: int|
                    0 <= k < kept@.len() ==> !(#[trigger] kept@[k]).cooldown.is_ready_spec(),
            decreases n - i,
        {
            let mut e: Explosion = self.explosions[i];
            e.cooldown.subtract(delta_ms);
            proof {
                let ii = i as int;
                assert(e == tick(orig[ii]));
                assert(orig.take(ii + 1).map_values(tick) =~= orig.take(ii).map_values(tick).push(
                    tick(orig[ii]),
                ));
                assert(orig.take(ii).map_values(tick).push(tick(orig[ii])) =~= orig.take(
                    ii,
                ).map_values(tick) + seq![tick(orig[ii])]);
                Seq::<Explosion>::filter_distributes_over_add(
                    orig.take(ii).map_values(tick),
                    seq![tick(orig[ii])],
                    live,
                );
                crate::combat::lemma_filter_singleton(tick(orig[ii]), live);
            }
            if !e.cooldown.is_ready() {
                kept.push(e);
            }
            proof {
                assert(kept@ =~= orig.take(i as int + 1).map_values(tick).filter(live));
            }
            i = i + 1;
        }
        proof {
            assert(orig.take(n as int) =~= orig);
        }
        self.explosions = kept;
    }

    /// Score and consequences of one dead enemy, with the rare-drop roll
    /// supplied: the kill pays one hundred times the multiplier (plus the
    /// elite bonus for the elite color), steps the multiplier up, drops an
    /// ammo crate at the corpse exactly when the roll comes up zero, and
    /// then drains and applies every upgrade whose threshold the new score
    /// meets, posting an alert for each.
    pub fn enemy_killed_with_roll(&mut self, e: Enemy, roll: u32)
        requires
            old(self).wf(),
            roll < 100,
            e.wf(),
        ensures
            final(self).wf(),
            final(self).score == kill_score_spec(
                old(self).score,
                old(self).score_multiplier.current,
                e.color,
            ),
            old(self).score_multiplier.current < crate::progression::MULTIPLIER_MAX ==> final(self).score_multiplier.current == old(self).score_multiplier.current + 1,
            old(self).score_multiplier.current == crate::progression::MULTIPLIER_MAX ==> final(self).score_multiplier.current == old(self).score_multiplier.current,
            roll == 0 ==> final(self).pickups@ == old(self).pickups@.push(
                Pickup { position: e.position },
            ),
            roll > 0 ==> final(self).pickups@ == old(self).pickups@,
            exists|todo: Seq<Upgrade>|
                #![trigger todo.len()]
                todo + final(self).upgrades@ == old(self).upgrades@ && (forall|i: int|
                    0 <= i < todo.len() ==> (#[trigger] todo[i]).score <= final(self).score) && (
                final(self).upgrades@.len() > 0 ==> final(self).upgrades@[0].score > final(self).score) && final(self).messages@.len() == crate::pickups::min_alerts_spec(
                    old(self).messages@.len() as int + todo.len() as int,
                ),
            final(self).score_multiplier == crate::progression::incremented_multiplier_spec(
                old(self).score_multiplier,
            ),
            final(self).now_ms == old(self).now_ms,
            final(self).bullets@ == old(self).bullets@,
            final(self).enemies@ == old(self).enemies@,
            final(self).walls@ == old(self).walls@,
            final(self).barrels@ == old(self).barrels@,
            final(self).explosions@ == old(self).explosions@,
            final(self).wave_count == old(self).wave_count,
            final(self).wave_timer == old(self).wave_timer,
            final(self).pickup_respawn == old(self).pickup_respawn,
            final(self).player.health == old(self).player.health,
            final(self).player.position == old(self).player.position,
            final(self).paused == old(self).paused,
    {
        let award: u64 = 100 * (self.score_multiplier.current as u64);
        self.score = sat_add_u64(self.score, award);
        self.score_multiplier.increment();
        let elite = {
            let p = Color::purple();
            e.color == p
        };
        if elite {
            self.score = sat_add_u64(self.score, 1_000_000);
        }
        if roll < 1 {
            self.pickups.push(Pickup { position: e.position });
        }
        let todo = drain_ready_upgrades(&mut self.upgrades, self.score);
        let ghost drained = todo@;
        let ghost post_drain = self.upgrades@;
        let ghost pre_apply = *self;
        let n = todo.len();
        let mut i: usize = 0;
        while i < n
            invariant
                n == drained.len(),
                todo@ == drained,
                0 <= i <= n,
                self.upgrades@ == post_drain,
                upgrades_sorted(self.upgrades@),
                self.player.wf(),
                self.player.health == pre_apply.player.health,
                self.player.position == pre_apply.player.position,
                self.player.facing == pre_apply.player.facing,
                self.player.selected_weapon == pre_apply.player.selected_weapon,
                self.messages@.len() <= ALERT_QUEUE_MAX,
                self.messages@.len() == crate::pickups::min_alerts_spec(
                    old(self).messages@.len() as int + i as int,
                ),
                old(self).messages@.len() <= ALERT_QUEUE_MAX,
                forall|k: int| 0 <= k < self.messages@.len() ==> (#[trigger] self.messages@[k]).wf(),
                self.score == pre_apply.score,
                self.now_ms == pre_apply.now_ms,
                self.bullets@ == pre_apply.bullets@,
                self.enemies@ == pre_apply.enemies@,
                self.walls@ == pre_apply.walls@,
                self.barrels@ == pre_apply.barrels@,
                self.explosions@ == pre_apply.explosions@,
                self.wave_count == pre_apply.wave_count,
                self.wave_timer == pre_apply.wave_timer,
                self.pickups@ == pre_apply.pickups@,
                self.pickup_respawn == pre_apply.pickup_respawn,
                self.score_multiplier == pre_apply.score_multiplier,
                self.paused == pre_apply.paused,
                forall|k: int| 0 <= k < pre_apply.bullets@.len() ==> (#[trigger] pre_apply.bullets@[k]).wf(),
                forall|k: int|
                    0 <= k < pre_apply.bullets@.len() ==> (#[trigger] pre_apply.bullets@[k]).birth_ms
                        <= pre_apply.now_ms,
                forall|k: int| 0 <= k < pre_apply.enemies@.len() ==> (#[trigger] pre_apply.enemies@[k]).wf(),
                forall|k: int| 0 <= k < pre_apply.walls@.len() ==> (#[trigger] pre_apply.walls@[k]).wf(),
                forall|k: int| 0 <= k < pre_apply.barrels@.len() ==> (#[trigger] pre_apply.barrels@[k]).wf(),
                forall|k: int| 0 <= k < pre_apply.pickups@.len() ==> (#[trigger] pre_apply.pickups@[k]).wf(),
                forall|k: int|
                    0 <= k < pre_apply.explosions@.len() ==> (#[trigger] pre_apply.explosions@[k]).wf(),
                pre_apply.score_multiplier.wf(),
                pre_apply.wave_timer.wf(),
                pre_apply.pickup_respawn.wf(),
            decreases n - i,
        {
            let up: Upgrade = todo[i];
            let text = up.kind.label();
            push_alert(&mut self.messages, Alert::with_color(text.to_string(), Color::green()));
            apply_upgrade(&mut self.player, &mut self.possible_pickups, up.kind);
            i = i + 1;
        }
        proof {
            assert(drained + self.upgrades@ == old(self).upgrades@ && (forall|k: int|
                0 <= k < drained.len() ==> (#[trigger] drained[k]).score <= self.score) && (
            self.upgrades@.len() > 0 ==> self.upgrades@[0].score > self.score));
        }
    }

    /// Score and consequences of one dead enemy, the rare-drop roll drawn
    /// fresh: one kill in a hundred drops an ammo crate at the corpse.
    pub fn enemy_killed(&mut self, e: Enemy)
        requires
            old(self).wf(),
            e.wf(),
        ensures
            final(self).wf(),
            final(self).score == kill_score_spec(
                old(self).score,
                old(self).score_multiplier.current,
                e.color,
            ),
            final(self).pickups@ == old(self).pickups@ || final(self).pickups@ == old(self).pickups@.push(Pickup { position: e.position }),
            final(self).score_multiplier == crate::progression::incremented_multiplier_spec(
                old(self).score_multiplier,
            ),
            exists|todo: Seq<Upgrade>|
                #![trigger todo.len()]
                todo + final(self).upgrades@ == old(self).upgrades@ && (forall|i: int|
                    0 <= i < todo.len() ==> (#[trigger] todo[i]).score <= final(self).score) && (
                final(self).upgrades@.len() > 0 ==> final(self).upgrades@[0].score > final(self).score) && final(self).messages@.len() == crate::pickups::min_alerts_spec(
                    old(self).messages@.len() as int + todo.len() as int,
                ),
            final(self).now_ms == old(self).now_ms,
            final(self).bullets@ == old(self).bullets@,
            final(self).enemies@ == old(self).enemies@,
            final(self).walls@ == old(self).walls@,
            final(self).barrels@ == old(self).barrels@,
            final(self).explosions@ == old(self).explosions@,
            final(self).wave_count == old(self).wave_count,
            final(self).wave_timer == old(self).wave_timer,
            final(self).pickup_respawn == old(self).pickup_respawn,
            final(self).player.health == old(self).player.health,
            final(self).player.position == old(self).player.position,
            final(self).paused == old(self).paused,
    {
        let roll = rand_range_usize(0, 100);
        self.enemy_killed_with_roll(e, roll as u32);
    }

    /// The player after one blast: inside the blast radius the inverse-
    /// distance damage lands and the shove away from the blast center
    /// applies; outside it nothing happens.
    pub open spec fn blast_player_spec(pos: Vec2, health: int, center: Vec2) -> (Vec2, int) {
        if center.dist_milli_spec(pos) < BLAST_RADIUS {
            let dir = pos.sub_spec(center);
            let dist = dir.length_spec();
            let d = if dist == 0 {
                1int
            } else {
                dist
            };
            (
                pos.add_spec(dir.scale_spec(1_000_000int / d)),
                crate::entity::clamp_health(
                    health - crate::combat::blast_damage_spec(BLAST_DAMAGE as int, dist),
                ),
            )
        } else {
            (pos, health)
        }
    }

    /// The whole of one detonation pass: each dead barrel in order blasts
    /// the walls, the enemies (with knockback), the barrels and the player,
    /// and leaves one short-lived explosion record at its site.
    pub open spec fn explode_fold(
        explosives: Seq<Barrel>,
        walls: Seq<Wall>,
        enemies: Seq<Enemy>,
        barrels: Seq<Barrel>,
        player_pos: Vec2,
        player_health: int,
        explosions: Seq<Explosion>,
    ) -> (Seq<Wall>, Seq<Enemy>, Seq<Barrel>, Vec2, int, Seq<Explosion>)
        decreases explosives.len(),
    {
        if explosives.len() == 0 {
            (walls, enemies, barrels, player_pos, player_health, explosions)
        } else {
            let b = explosives[0];
            let w2 = crate::combat::blasted_targets_spec(
                walls,
                b.position,
                BLAST_DAMAGE as int,
                BLAST_RADIUS as int,
                false,
            );
            let e2 = crate::combat::blasted_targets_spec(
                enemies,
                b.position,
                BLAST_DAMAGE as int,
                BLAST_RADIUS as int,
                true,
            );
            let br2 = crate::combat::blasted_targets_spec(
                barrels,
                b.position,
                BLAST_DAMAGE as int,
                BLAST_RADIUS as int,
                false,
            );
            let pl = Game::blast_player_spec(player_pos, player_health, b.position);
            let ex2 = explosions.push(
                Explosion {
                    position: b.position,
                    starting_radius: 16_000,
                    ending_radius: 72_000,
                    cooldown: Cooldown {
                        total_ms: 100,
                        remaining_ms: 100,
                        state: crate::cooldown::TimerState::Waiting,
                    },
                },
            );
            Game::explode_fold(explosives.skip(1), w2, e2, br2, pl.0, pl.1, ex2)
        }
    }

    /// Detonate every newly dead barrel: each blast damages (and, for
    /// enemies and the player, knocks back) everything its radius overlaps,
    /// and leaves a short-lived visual explosion record at the blast site.
    pub fn explode(&mut self, explosives: Vec<Barrel>)
        requires
            old(self).wf(),
            forall|i: int| 0 <= i < explosives@.len() ==> (#[trigger] explosives@[i]).wf(),
        ensures
            final(self).wf(),
            final(self).explosions@.len() == old(self).explosions@.len() + explosives@.len(),
            final(self).enemies@.len() == old(self).enemies@.len(),
            final(self).walls@.len() == old(self).walls@.len(),
            final(self).barrels@.len() == old(self).barrels@.len(),
            final(self).player.health <= old(self).player.health,
            final(self).now_ms == old(self).now_ms,
            final(self).score == old(self).score,
            final(self).bullets@ == old(self).bullets@,
            final(self).paused == old(self).paused,
            final(self).wave_count == old(self).wave_count,
            final(self).upgrades@ == old(self).upgrades@,
            final(self).messages@ == old(self).messages@,
            final(self).score_multiplier == old(self).score_multiplier,
            final(self).wave_timer == old(self).wave_timer,
            final(self).pickup_respawn == old(self).pickup_respawn,
            final(self).pickups@ == old(self).pickups@,
            final(self).possible_pickups@ == old(self).possible_pickups@,
            ({
                let r = Game::explode_fold(
                    explosives@,
                    old(self).walls@,
                    old(self).enemies@,
                    old(self).barrels@,
                    old(self).player.position,
                    old(self).player.health as int,
                    old(self).explosions@,
                );
                &&& final(self).walls@ == r.0
                &&& final(self).enemies@ == r.1
                &&& final(self).barrels@ == r.2
                &&& final(self).player.position == r.3
                &&& final(self).player.health as int == r.4
                &&& final(self).explosions@ == r.5
            }),
    {
        let ghost orig_walls = self.walls@;
        let ghost orig_enemies = self.enemies@;
        let ghost orig_barrels = self.barrels@;
        let ghost orig_ppos = self.player.position;
        let ghost orig_ph = self.player.health as int;
        let ghost orig_ex = self.explosions@;
        let n = explosives.len();
        let mut i: usize = 0;
        proof {
            assert(explosives@.skip(0) =~= explosives@);
        }
        while i < n
            invariant
                Game::explode_fold(
                    explosives@,
                    orig_walls,
                    orig_enemies,
                    orig_barrels,
                    orig_ppos,
                    orig_ph,
                    orig_ex,
                ) == Game::explode_fold(
                    explosives@.skip(i as int),
                    self.walls@,
                    self.enemies@,
                    self.barrels@,
                    self.player.position,
                    self.player.health as int,
                    self.explosions@,
                ),
                orig_walls == old(self).walls@,
                orig_enemies == old(self).enemies@,
                orig_barrels == old(self).barrels@,
                orig_ppos == old(self).player.position,
                orig_ph == old(self).player.health as int,
                orig_ex == old(self).explosions@,
                n == explosives@.len(),
                0 <= i <= n,
                forall|k: int| 0 <= k < n ==> (#[trigger] explosives@[k]).wf(),
                self.wf(),
                self.explosions@.len() == old(self).explosions@.len() + i,
                self.enemies@.len() == old(self).enemies@.len(),
                self.walls@.len() == old(self).walls@.len(),
                self.barrels@.len() == old(self).barrels@.len(),
                self.player.health <= old(self).player.health,
                self.now_ms == old(self).now_ms,
                self.score == old(self).score,
                self.bullets@ == old(self).bullets@,
                self.paused == old(self).paused,
                self.wave_count == old(self).wave_count,
                self.upgrades@ == old(self).upgrades@,
                self.messages@ == old(self).messages@,
                self.score_multiplier == old(self).score_multiplier,
                self.wave_timer == old(self).wave_timer,
                self.pickup_respawn == old(self).pickup_respawn,
                self.pickups@ == old(self).pickups@,
                self.possible_pickups@ == old(self).possible_pickups@,
            decreases n - i,
        {
            let b: Barrel = explosives[i];
            explode_against(&mut self.walls, b.position, BLAST_DAMAGE, BLAST_RADIUS, false);
            explode_against(&mut self.enemies, b.position, BLAST_DAMAGE, BLAST_RADIUS, true);
            explode_against(&mut self.barrels, b.position, BLAST_DAMAGE, BLAST_RADIUS, false);
            let hits_player = {
                let d = b.position.dist_milli(&self.player.position);
                d < BLAST_RADIUS as u64
            };
            if hits_player {
                let dir = self.player.position.sub(&b.position);
                let dist = dir.length();
                let dmg = crate::combat::blast_damage(BLAST_DAMAGE, dist);
                self.player.health = sub_health(self.player.health, dmg);
                let d: i64 = if dist == 0 {
                    1
                } else {
                    dist as i64
                };
                let push = dir.scale(1_000_000 / d);
                let np = self.player.position.add(&push);
                self.player.position = np;
            }
            self.explosions.push(
                Explosion {
                    position: b.position,
                    starting_radius: 16_000,
                    ending_radius: 72_000,
                    cooldown: Cooldown::waiting(100),
                },
            );
            proof {
                let ii = i as int;
                assert(explosives@.skip(ii)[0] == explosives@[ii]);
                assert(explosives@.skip(ii).skip(1) =~= explosives@.skip(ii + 1));
            }
            i = i + 1;
        }
        proof {
            assert(explosives@.skip(n as int) =~= Seq::<Barrel>::empty());
        }
    }
}

/// What one kill pays: one hundred points per multiplier step, plus the
/// elite bonus for the elite color, saturating at the top of the counter.
pub open spec fn kill_score_spec(score: u64, multiplier: u32, color: Color) -> u64 {
    let base = sat_add_spec(score as int, 100 * multiplier);
    if color == (Color { r: 900, g: 800, b: 850, a: 1000 }) {
        sat_add_spec(base as int, 1_000_000) as u64
    } else {
        base as u64
    }
}

/// Saturating addition on the score counter.
pub open spec fn sat_add_spec(a: int, b: int) -> int {
    if a + b > u64::MAX {
        u64::MAX as int
    } else {
        a + b
    }
}

fn sat_add_u64(a: u64, b: u64) -> (r: u64)
    ensures
        r as int == sat_add_spec(a as int, b as int),
{
    if a > u64::MAX - b {
        u64::MAX
    } else {
        a + b
    }
}

/// Two game states equal in everything but the explosion pool.
pub open spec fn eq_except_explosions(a: Game, b: Game) -> bool {
    &&& a.player == b.player
    &&& a.enemies@ == b.enemies@
    &&& a.now_ms == b.now_ms
    &&& a.score == b.score
    &&& a.score_multiplier == b.score_multiplier
    &&& a.walls@ == b.walls@
    &&& a.barrels@ == b.barrels@
    &&& a.bullets@ == b.bullets@
    &&& a.wave_count == b.wave_count
    &&& a.wave_timer == b.wave_timer
    &&& a.pickups@ == b.pickups@
    &&& a.possible_pickups@ == b.possible_pickups@
    &&& a.pickup_respawn == b.pickup_respawn
    &&& a.messages@ == b.messages@
    &&& a.upgrades@ == b.upgrades@
    &&& a.paused == b.paused
}

impl Game {
    /// One frame of simulation. Time always advances by the frame delta;
    /// while the game is paused or the player is dead nothing else moves.
    /// Otherwise the passes run in their fixed order: explosions age and
    /// expire; the wave director may spawn; expired bullets leave and the
    /// rest fly on; the player is clamped to the room and pushed out of
    /// obstacles; the held weapon's timer ticks; pickups resolve and may
    /// respawn; bullets strike enemies (with knockback), the dead are
    /// buried and each kill scored; enemies move and deal contact damage;
    /// bullets strike walls and barrels, their dead are buried and dead
    /// barrels detonate; alerts age; and the score multiplier decays.

    /// Score every newly dead enemy in order: each kill pays its award and
    /// steps the multiplier (the score and multiplier fold kill by kill),
    /// may drop a crate, and drains and applies any upgrades reached. The
    /// simulation pools, the clock and the player's position and health are
    /// untouched.
    fn apply_kills(&mut self, dead_enemies: Vec<Enemy>)
        requires
            old(self).wf(),
            forall|k: int| 0 <= k < dead_enemies@.len() ==> (#[trigger] dead_enemies@[k]).wf(),
        ensures
            final(self).wf(),
            final(self).score == kill_fold_score(
                old(self).score,
                old(self).score_multiplier.current,
                dead_enemies@,
            ),
            final(self).score_multiplier == crate::progression::incremented_n_spec(
                old(self).score_multiplier,
                dead_enemies@.len(),
            ),
            final(self).score >= old(self).score,
            final(self).bullets@ == old(self).bullets@,
            final(self).enemies@ == old(self).enemies@,
            final(self).walls@ == old(self).walls@,
            final(self).barrels@ == old(self).barrels@,
            final(self).explosions@ == old(self).explosions@,
            final(self).player.position == old(self).player.position,
            final(self).player.health == old(self).player.health,
            final(self).wave_count == old(self).wave_count,
            final(self).wave_timer == old(self).wave_timer,
            final(self).pickup_respawn == old(self).pickup_respawn,
            final(self).paused == old(self).paused,
            final(self).now_ms == old(self).now_ms,
    {
        let dn = dead_enemies.len();
        let mut di: usize = 0;
        proof {
            assert(dead_enemies@.skip(0) =~= dead_enemies@);
        }
        while di < dn
            invariant
                dn == dead_enemies@.len(),
                0 <= di <= dn,
                forall|k: int| 0 <= k < dead_enemies@.len() ==> (#[trigger] dead_enemies@[k]).wf(),
                self.wf(),
                self.score >= old(self).score,
                kill_fold_score(
                    old(self).score,
                    old(self).score_multiplier.current,
                    dead_enemies@,
                ) == kill_fold_score(
                    self.score,
                    self.score_multiplier.current,
                    dead_enemies@.skip(di as int),
                ),
                crate::progression::incremented_n_spec(old(self).score_multiplier, dn as nat)
                    == crate::progression::incremented_n_spec(
                    self.score_multiplier,
                    (dn - di) as nat,
                ),
                self.bullets@ == old(self).bullets@,
                self.enemies@ == old(self).enemies@,
                self.walls@ == old(self).walls@,
                self.barrels@ == old(self).barrels@,
                self.explosions@ == old(self).explosions@,
                self.player.position == old(self).player.position,
                self.player.health == old(self).player.health,
                self.wave_count == old(self).wave_count,
                self.wave_timer == old(self).wave_timer,
                self.pickup_respawn == old(self).pickup_respawn,
                self.paused == old(self).paused,
                self.now_ms == old(self).now_ms,
            decreases dn - di,
        {
            let e: Enemy = dead_enemies[di];
            self.enemy_killed(e);
            proof {
                let dii = di as int;
                assert(dead_enemies@.skip(dii)[0] == dead_enemies@[dii]);
                assert(dead_enemies@.skip(dii).skip(1) =~= dead_enemies@.skip(dii + 1));
            }
            di = di + 1;
        }
        proof {
            assert(dead_enemies@.skip(dn as int) =~= Seq::<Enemy>::empty());
        }
    }

    #[verifier::rlimit(60)]
    pub fn tick(&mut self, delta_ms: u64)
        requires
            old(self).wf(),
            old(self).now_ms + delta_ms <= u64::MAX,
        ensures
            final(self).wf(),
            final(self).now_ms == old(self).now_ms + delta_ms,
            old(self).paused || old(self).player.health <= 0 ==> final(self).player == old(self).player && final(self).bullets@ == old(self).bullets@ && final(self).enemies@ == old(self).enemies@ && final(self).walls@ == old(self).walls@ && final(self).barrels@ == old(self).barrels@ && final(self).explosions@ == old(self).explosions@ && final(self).score
                == old(self).score && final(self).wave_count == old(self).wave_count && final(self).pickups@ == old(self).pickups@ && final(self).messages@ == old(self).messages@
                && final(self).upgrades@ == old(self).upgrades@ && final(self).paused == old(self).paused && final(self).score_multiplier == old(self).score_multiplier && final(self).wave_timer == old(self).wave_timer && final(self).pickup_respawn == old(self).pickup_respawn && final(self).possible_pickups@ == old(self).possible_pickups@,
            final(self).paused == old(self).paused,
            final(self).score >= old(self).score,
            final(self).player.health <= old(self).player.health,
            !old(self).paused && old(self).player.health > 0 ==> forall|j: int|
                0 <= j < final(self).bullets@.len() ==> (#[trigger] final(self).bullets@[j]).live_at_spec(final(self).now_ms),
            !old(self).paused && old(self).player.health > 0 ==> exists|spawned: Seq<Enemy>|
                #![trigger frame_sim_rel(*old(self), *final(self), delta_ms, spawned)]
                frame_sim_rel(*old(self), *final(self), delta_ms, spawned),
    {
        self.now_ms = self.now_ms + delta_ms;
        if self.paused {
            return ;
        }
        let dead_now = {
            let h = self.player.health;
            h <= 0
        };
        if dead_now {
            return ;
        }
        self.tick_explosions(delta_ms);
        {
            let ppos = self.player.position;
            let mc = self.score_multiplier.current;
            wave_things(
                &mut self.wave_timer,
                &mut self.enemies,
                &mut self.wave_count,
                ppos,
                mc,
                delta_ms,
            );
        }
        let ghost spawned = self.enemies@.skip(old(self).enemies@.len() as int);
        proof {
            assert(self.enemies@ =~= old(self).enemies@ + spawned);
        }
        cull_bullets(&mut self.bullets, self.now_ms);
        let ghost pre_advance = self.bullets@;
        advance_bullets(&mut self.bullets, delta_ms);
        proof {
            assert forall|j: int|
                0 <= j < self.bullets@.len() implies (#[trigger] self.bullets@[j]).birth_ms
                <= self.now_ms && self.bullets@[j].live_at_spec(self.now_ms) by {
                assert(self.bullets@[j].birth_ms == pre_advance[j].birth_ms);
                assert(pre_advance[j].live_at_spec(self.now_ms));
            }
        }
        {
            let np = clamp_to_room(self.player.position, PLAYER_RADIUS);
            self.player.position = np;
        }
        {
            let np = crate::movement::pushed_out_of_walls(&self.walls, self.player.position);
            self.player.position = np;
        }
        {
            let np = crate::movement::pushed_out_of_barrels(&self.barrels, self.player.position);
            self.player.position = np;
        }
        self.player.tick(delta_ms);
        check_pickups(
            &mut self.pickups,
            &mut self.player,
            &self.possible_pickups,
            &mut self.messages,
        );
        do_pickup_respawn(&mut self.pickup_respawn, &mut self.pickups, delta_ms);
        let ghost pre_hits = self.bullets@;
        {
            let ppos = self.player.position;
            do_bullet_hits(&mut self.enemies, &mut self.bullets, Some(ppos));
        }
        proof {
            assert forall|j: int|
                0 <= j < self.bullets@.len() implies (#[trigger] self.bullets@[j]).birth_ms
                <= self.now_ms && self.bullets@[j].live_at_spec(self.now_ms) by {
                let bj = self.bullets@[j];
                assert(pre_hits.contains(bj));
                let k = choose|k: int| 0 <= k < pre_hits.len() && pre_hits[k] == bj;
                assert(pre_hits[k].birth_ms <= self.now_ms);
                assert(pre_hits[k].live_at_spec(self.now_ms));
            }
        }
        let dead_enemies = burry_dead(&mut self.enemies);
        self.apply_kills(dead_enemies);
        let ppos2 = self.player.position;
        tick_enemies(
            &mut self.enemies,
            &mut self.walls,
            &self.barrels,
            ppos2,
            &mut self.player.health,
            delta_ms,
        );
        let ghost pre_wall_hits = self.bullets@;
        do_bullet_hits(&mut self.walls, &mut self.bullets, None);
        proof {
            assert forall|j: int|
                0 <= j < self.bullets@.len() implies (#[trigger] self.bullets@[j]).birth_ms
                <= self.now_ms && self.bullets@[j].live_at_spec(self.now_ms) by {
                let bj = self.bullets@[j];
                assert(pre_wall_hits.contains(bj));
                let k = choose|k: int| 0 <= k < pre_wall_hits.len() && pre_wall_hits[k] == bj;
                assert(pre_wall_hits[k].birth_ms <= self.now_ms);
                assert(pre_wall_hits[k].live_at_spec(self.now_ms));
            }
        }
        burry_dead(&mut self.walls);
        let ghost pre_barrel_hits = self.bullets@;
        do_bullet_hits(&mut self.barrels, &mut self.bullets, None);
        proof {
            assert forall|j: int|
                0 <= j < self.bullets@.len() implies (#[trigger] self.bullets@[j]).birth_ms
                <= self.now_ms && self.bullets@[j].live_at_spec(self.now_ms) by {
                let bj = self.bullets@[j];
                assert(pre_barrel_hits.contains(bj));
                let k = choose|k: int| 0 <= k < pre_barrel_hits.len() && pre_barrel_hits[k] == bj;
                assert(pre_barrel_hits[k].birth_ms <= self.now_ms);
                assert(pre_barrel_hits[k].live_at_spec(self.now_ms));
            }
        }
        let dead_barrels = burry_dead(&mut self.barrels);
        self.explode(dead_barrels);
        tick_alerts(&mut self.messages, delta_ms);
        self.score_multiplier.subtract(delta_ms);
        proof {
            let pre = *old(self);
            let now2 = (pre.now_ms + delta_ms) as u64;
            let triggered = delta_ms >= pre.wave_timer.remaining_ms;
            let pool0 = pre.enemies@ + spawned;
            let prepared = crate::bullets::advanced_bullets_spec(
                crate::bullets::culled_bullets_spec(pre.bullets@, now2),
                delta_ms,
            );
            let ppos = crate::movement::pushed_out_of_barrels_spec(
                crate::movement::pushed_out_of_walls_spec(
                    crate::movement::clamp_to_room_spec(pre.player.position, PLAYER_RADIUS as int),
                    pre.walls@,
                ),
                pre.barrels@,
            );
            let hits1 = crate::combat::bullet_hits_fold(pool0, prepared, Some(ppos));
            let dead = hits1.0.filter(|d: Enemy| d.t_health() <= 0);
            let alive = hits1.0.filter(|d: Enemy| d.t_health() > 0);
            let c = crate::movement::contact_pass_fold(
                alive,
                pre.walls@,
                pre.barrels@,
                ppos,
                pre.player.health as int,
                delta_ms,
            );
            let moved = crate::movement::movement_fold(c.0, Seq::empty(), ppos, delta_ms);
            let hits2 = crate::combat::bullet_hits_fold(c.1, hits1.1, None);
            let walls_alive = hits2.0.filter(|d: Wall| d.t_health() > 0);
            let hits3 = crate::combat::bullet_hits_fold(pre.barrels@, hits2.1, None);
            let barrels_alive = hits3.0.filter(|d: Barrel| d.t_health() > 0);
            let dead_b = hits3.0.filter(|d: Barrel| d.t_health() <= 0);
            let aged_ex = Game::aged_explosions_spec(pre.explosions@, delta_ms);
            let r = Game::explode_fold(
                dead_b,
                walls_alive,
                moved,
                barrels_alive,
                ppos,
                c.2,
                aged_ex,
            );
            assert(self.bullets@ == hits3.1);
            assert(self.enemies@ == r.1);
            assert(self.walls@ == r.0);
            assert(self.barrels@ == r.2);
            assert(self.player.position == r.3);
            assert(self.player.health as int == r.4);
            assert(self.explosions@ == r.5);
            assert(self.score == kill_fold_score(pre.score, pre.score_multiplier.current, dead));
            assert(self.score_multiplier == crate::progression::subtracted_multiplier_spec(
                crate::progression::incremented_n_spec(pre.score_multiplier, dead.len()),
                delta_ms,
            ));
            assert(self.wave_count == (if triggered {
                crate::wave::sat_inc_spec(pre.wave_count)
            } else {
                pre.wave_count
            }));
            assert(self.wave_timer == (if triggered {
                pre.wave_timer.subtracted_spec(delta_ms).reset_spec()
            } else {
                pre.wave_timer.subtracted_spec(delta_ms)
            }));
            assert(!triggered ==> spawned.len() == 0);
            reveal(frame_sim_rel);
            assert(frame_sim_rel(*old(self), *self, delta_ms, spawned));
            lemma_frame_sim_witness(*old(self), *self, delta_ms, spawned);
        }
    }
}

} // verus!
