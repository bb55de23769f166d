use vstd::prelude::*;

use crate::color::Color;
use crate::cooldown::Cooldown;
use crate::geom::Vec2;

verus! {

/// Health and damage are held in hundredths of a point and clamped to this
/// bound, so subtraction stays inside `i64`.
pub const HEALTH_LIMIT: i64 = 1_000_000_000_000_000;

/// Largest damage one application may carry, in hundredths of a point.
pub const DMG_LIMIT: i64 = 1_000_000_000_000;

/// Largest bounding radius, in milli-units.
pub const RADIUS_LIMIT: i64 = 1_000_000;

/// Bound on a stored velocity coordinate, in milli-units per second.
pub const VEL_LIMIT: i64 = 1_000_000;

/// How long a bullet lives, in milliseconds.
pub const BULLET_LIFESPAN_MS: u64 = 1000;

/// The player's (and an enemy's) bounding radius: three quarters of a unit.
pub const PLAYER_RADIUS: i64 = 750;

/// Bounding radius of a placed wall or barrel: one unit.
pub const OBSTACLE_RADIUS: i64 = 1000;

/// Bounding radius of an ammo pickup: half the player's.
pub const PICKUP_RADIUS: i64 = 375;

/// A placed wall's health, in hundredths.
pub const WALL_HEALTH: i64 = 10_000;

/// Health clamped into the representable band.
pub open spec fn clamp_health(h: int) -> int {
    if h > HEALTH_LIMIT {
        HEALTH_LIMIT as int
    } else if h < -HEALTH_LIMIT {
        -HEALTH_LIMIT as int
    } else {
        h
    }
}

/// Subtract damage from health, clamped to the health band.
pub fn sub_health(h: i64, d: i64) -> (r: i64)
    requires
        -HEALTH_LIMIT <= h <= HEALTH_LIMIT,
        0 <= d <= DMG_LIMIT,
    ensures
        r == clamp_health(h - d),
        -HEALTH_LIMIT <= r <= HEALTH_LIMIT,
{
    let wide: i64 = h - d;
    if wide < -HEALTH_LIMIT {
        -HEALTH_LIMIT
    } else {
        wide
    }
}

/// A bounding circle, derived from an entity on demand and never stored.
#[derive(Clone, Copy, Debug, PartialEq, Eq, Structural)]
pub struct BoundingCircle {
    pub center: Vec2,
    pub radius: i64,
}

impl BoundingCircle {
    pub open spec fn wf(self) -> bool {
        self.center.wf() && 0 <= self.radius <= RADIUS_LIMIT
    }

    /// The collision test: the other center lies strictly inside this
    /// circle's radius. Deliberately asymmetric — only this circle's radius
    /// matters.
    pub open spec fn collides_spec(self, other: BoundingCircle) -> bool {
        self.center.dist_milli_spec(other.center) < self.radius
    }

    pub fn collides_with(&self, other: &BoundingCircle) -> (r: bool)
        requires
            self.wf(),
            other.wf(),
        ensures
            r == self.collides_spec(*other),
    {
        self.center.dist_milli(&other.center) < self.radius as u64
    }

    /// The bullet-hit test: the point lies within half this circle's radius,
    /// a tighter window than the physical one.
    pub open spec fn was_hit_spec(self, p: Vec2) -> bool {
        self.center.dist_milli_spec(p) < self.radius / 2
    }

    pub fn was_hit_point(&self, p: &Vec2) -> (r: bool)
        requires
            self.wf(),
            p.wf(),
        ensures
            r == self.was_hit_spec(*p),
    {
        self.center.dist_milli(p) < (self.radius / 2) as u64
    }
}

/// A projectile. Owned by the active-bullets pool; destroyed on its first
/// hit or when its lifespan runs out.
#[derive(Clone, Copy, Debug, PartialEq, Eq, Structural)]
pub struct Bullet {
    pub position: Vec2,
    pub velocity: Vec2,
    pub birth_ms: u64,
    pub damage: i64,
}

impl Bullet {
    pub open spec fn wf(self) -> bool {
        &&& self.position.wf()
        &&& self.velocity.wf()
        &&& -VEL_LIMIT <= self.velocity.x <= VEL_LIMIT
        &&& -VEL_LIMIT <= self.velocity.y <= VEL_LIMIT
        &&& 0 <= self.damage <= DMG_LIMIT
    }

    pub fn new(position: Vec2, velocity: Vec2, birth_ms: u64, damage: i64) -> (b: Bullet)
        ensures
            b == (Bullet { position, velocity, birth_ms, damage }),
    {
        Bullet { position, velocity, birth_ms, damage }
    }

    /// A bullet born at `birth_ms` is live strictly before `birth_ms +
    /// BULLET_LIFESPAN_MS` and gone from then on.
    pub open spec fn live_at_spec(self, now_ms: u64) -> bool {
        now_ms - self.birth_ms < BULLET_LIFESPAN_MS
    }

    pub fn live_at(&self, now_ms: u64) -> (r: bool)
        requires
            self.birth_ms <= now_ms,
        ensures
            r == self.live_at_spec(now_ms),
    {
        now_ms - self.birth_ms < BULLET_LIFESPAN_MS
    }
}

/// A foe seeking the player.
#[derive(Clone, Copy, Debug, PartialEq, Eq, Structural)]
pub struct Enemy {
    pub position: Vec2,
    pub color: Color,
    pub health: i64,
    pub speed_milli: i64,
    pub cooldown: Cooldown,
    pub should_move_next_frame: bool,
}

impl Enemy {
    pub open spec fn wf(self) -> bool {
        &&& self.position.wf()
        &&& -HEALTH_LIMIT <= self.health <= HEALTH_LIMIT
        &&& 0 <= self.speed_milli <= VEL_LIMIT
        &&& self.cooldown.wf()
    }

}

/// A placed wall: blocks movement and bullets.
#[derive(Clone, Copy, Debug, PartialEq, Eq, Structural)]
pub struct Wall {
    pub position: Vec2,
    pub health: i64,
}

impl Wall {
    pub open spec fn wf(self) -> bool {
        self.position.wf() && -HEALTH_LIMIT <= self.health <= HEALTH_LIMIT
    }


    /// The damage tint: white when whole, black at zero health.
    pub fn damage_color(&self) -> (c: Color)
        requires
            0 <= self.health <= WALL_HEALTH,
        ensures
            c == crate::color::color_lerp_spec(
                Color { r: 1000, g: 1000, b: 1000, a: 1000 },
                Color { r: 0, g: 0, b: 0, a: 1000 },
                self.health * 1000 / (WALL_HEALTH as int),
            ),
            c.wf(),
    {
        let t: i64 = (self.health * 1000) / WALL_HEALTH;
        proof {
            assert(0 <= self.health * 1000 <= WALL_HEALTH * 1000) by (nonlinear_arith)
                requires
                    0 <= self.health <= WALL_HEALTH,
            ;
            assert(0 <= self.health * 1000 / (WALL_HEALTH as int) <= 1000) by (nonlinear_arith)
                requires
                    0 <= self.health * 1000 <= WALL_HEALTH * 1000,
                    WALL_HEALTH == 10_000,
            ;
        }
        crate::color::color_lerp(Color::white(), Color::black(), t)
    }
}

/// A placed barrel: blocks movement and detonates when destroyed.
#[derive(Clone, Copy, Debug, PartialEq, Eq, Structural)]
pub struct Barrel {
    pub position: Vec2,
    pub health: i64,
}

impl Barrel {
    pub open spec fn wf(self) -> bool {
        self.position.wf() && -HEALTH_LIMIT <= self.health <= HEALTH_LIMIT
    }

}

/// A collectible ammo crate.
#[derive(Clone, Copy, Debug, PartialEq, Eq, Structural)]
pub struct Pickup {
    pub position: Vec2,
}

impl Pickup {
    pub open spec fn wf(self) -> bool {
        self.position.wf()
    }

    pub open spec fn bounds_spec(self) -> BoundingCircle {
        BoundingCircle { center: self.position, radius: PICKUP_RADIUS }
    }

    pub fn bounds(&self) -> (c: BoundingCircle)
        requires
            self.wf(),
        ensures
            c == self.bounds_spec(),
            c.wf(),
    {
        BoundingCircle { center: self.position, radius: PICKUP_RADIUS }
    }
}

/// A transient blast record, kept only while its timer runs, for display.
#[derive(Clone, Copy, Debug, PartialEq, Eq, Structural)]
pub struct Explosion {
    pub position: Vec2,
    pub starting_radius: i64,
    pub ending_radius: i64,
    pub cooldown: Cooldown,
}

impl Explosion {
    pub open spec fn wf(self) -> bool {
        self.position.wf() && self.cooldown.wf()
    }
}

/// What combat resolution needs of an entity: a bounding circle, health, and
/// the two ways a hit changes it — damage and knockback. The spec methods
/// name the fields; the exec methods promise exactly how each call relates
/// the new entity to the old one, every other part of it unchanged.
pub trait Target: Sized + Copy {
    spec fn t_center(self) -> Vec2;

    spec fn t_radius(self) -> int;

    spec fn t_health(self) -> int;

    spec fn t_wf(self) -> bool;

    /// The entity with its health reduced by `amount` (clamped), nothing
    /// else changed.
    spec fn damaged(self, amount: int) -> Self;

    /// The entity moved to `p`, nothing else changed.
    spec fn moved_to(self, p: Vec2) -> Self;

    fn bounds(&self) -> (c: BoundingCircle)
        requires
            self.t_wf(),
        ensures
            c.center == self.t_center(),
            c.radius as int == self.t_radius(),
            c.wf(),
    ;

    fn health(&self) -> (h: i64)
        requires
            self.t_wf(),
        ensures
            h as int == self.t_health(),
    ;

    fn apply_damage(&mut self, amount: i64)
        requires
            old(self).t_wf(),
            0 <= amount <= DMG_LIMIT,
        ensures
            *final(self) == old(self).damaged(amount as int),
            final(self).t_wf(),
            final(self).t_health() == clamp_health(old(self).t_health() - amount),
            final(self).t_center() == old(self).t_center(),
            final(self).t_radius() == old(self).t_radius(),
    ;

    fn move_to(&mut self, p: Vec2)
        requires
            old(self).t_wf(),
            p.wf(),
        ensures
            *final(self) == old(self).moved_to(p),
            final(self).t_wf(),
            final(self).t_center() == p,
            final(self).t_health() == old(self).t_health(),
            final(self).t_radius() == old(self).t_radius(),
    ;
}

impl Target for Enemy {
    open spec fn t_center(self) -> Vec2 {
        self.position
    }

    open spec fn t_radius(self) -> int {
        PLAYER_RADIUS as int
    }

    open spec fn t_health(self) -> int {
        self.health as int
    }

    open spec fn t_wf(self) -> bool {
        self.wf()
    }

    open spec fn damaged(self, amount: int) -> Enemy {
        Enemy { health: clamp_health(self.health - amount) as i64, ..self }
    }

    open spec fn moved_to(self, p: Vec2) -> Enemy {
        Enemy { position: p, ..self }
    }

    fn bounds(&self) -> (c: BoundingCircle) {
        BoundingCircle { center: self.position, radius: PLAYER_RADIUS }
    }

    fn health(&self) -> (h: i64) {
        self.health
    }

    fn apply_damage(&mut self, amount: i64) {
        self.health = sub_health(self.health, amount);
    }

    fn move_to(&mut self, p: Vec2) {
        self.position = p;
    }
}

impl Target for Wall {
    open spec fn t_center(self) -> Vec2 {
        self.position
    }

    open spec fn t_radius(self) -> int {
        OBSTACLE_RADIUS as int
    }

    open spec fn t_health(self) -> int {
        self.health as int
    }

    open spec fn t_wf(self) -> bool {
        self.wf()
    }

    open spec fn damaged(self, amount: int) -> Wall {
        Wall { health: clamp_health(self.health - amount) as i64, ..self }
    }

    open spec fn moved_to(self, p: Vec2) -> Wall {
        Wall { position: p, ..self }
    }

    fn bounds(&self) -> (c: BoundingCircle) {
        BoundingCircle { center: self.position, radius: OBSTACLE_RADIUS }
    }

    fn health(&self) -> (h: i64) {
        self.health
    }

    fn apply_damage(&mut self, amount: i64) {
        self.health = sub_health(self.health, amount);
    }

    fn move_to(&mut self, p: Vec2) {
        self.position = p;
    }
}

impl Target for Barrel {
    open spec fn t_center(self) -> Vec2 {
        self.position
    }

    open spec fn t_radius(self) -> int {
        OBSTACLE_RADIUS as int
    }

    open spec fn t_health(self) -> int {
        self.health as int
    }

    open spec fn t_wf(self) -> bool {
        self.wf()
    }

    open spec fn damaged(self, amount: int) -> Barrel {
        Barrel { health: clamp_health(self.health - amount) as i64, ..self }
    }

    open spec fn moved_to(self, p: Vec2) -> Barrel {
        Barrel { position: p, ..self }
    }

    fn bounds(&self) -> (c: BoundingCircle) {
        BoundingCircle { center: self.position, radius: OBSTACLE_RADIUS }
    }

    fn health(&self) -> (h: i64) {
        self.health
    }

    fn apply_damage(&mut self, amount: i64) {
        self.health = sub_health(self.health, amount);
    }

    fn move_to(&mut self, p: Vec2) {
        self.position = p;
    }
}

} // verus!
