use vstd::prelude::*;

use crate::ammo::Ammunition;
use crate::cooldown::{Cooldown, TimerState};
use crate::entity::{Bullet, DMG_LIMIT, VEL_LIMIT};
use crate::geom::Vec2;
use crate::rng::rand_range_i64;
use crate::trig::{rotate, rotate_spec, MAX_JITTER_MDEG};

verus! {

/// Bullet speed as a fixed-point scale factor: a unit direction scaled by it
/// travels forty units per second.
pub const BULLET_SPEED_FACTOR: i64 = 40_000;

/// The five weapon kinds. The first three shoot; the last two place an
/// obstacle instead.
#[derive(Clone, Copy, Debug, PartialEq, Eq, Structural)]
pub enum WeaponKind {
    Pistol,
    Uzi,
    Shotgun,
    BarrelPlacer,
    WallPlacer,
}

/// A weapon: its kind, rate-of-fire timer, ammunition and per-bullet damage
/// (in hundredths).
#[derive(Clone, Copy, Debug, PartialEq, Eq, Structural)]
pub struct Weapon {
    pub kind: WeaponKind,
    pub cooldown: Cooldown,
    pub ammo: Ammunition,
    pub damage: i64,
}

impl Weapon {
    pub open spec fn wf(self) -> bool {
        &&& self.cooldown.wf()
        &&& self.ammo.wf()
        &&& 0 <= self.damage <= DMG_LIMIT
    }

    /// The starting sidearm: half-second cooldown, unlimited ammo.
    pub fn pistol() -> (w: Weapon)
        ensures
            w.kind == WeaponKind::Pistol,
            w.cooldown.total_ms == 500,
            w.cooldown.remaining_ms == 0,
            w.ammo == (Ammunition::Infinite),
            w.damage == 750,
            w == spec_pistol(),
            w.wf(),
    {
        Weapon {
            kind: WeaponKind::Pistol,
            cooldown: Cooldown::ready(500),
            ammo: Ammunition::Infinite,
            damage: 750,
        }
    }

    /// Rapid fire, a thirty-round magazine that starts empty.
    pub fn uzi() -> (w: Weapon)
        ensures
            w.kind == WeaponKind::Uzi,
            w.cooldown.total_ms == 100,
            w.cooldown.remaining_ms == 0,
            w.ammo == (Ammunition::Limited { capacity: 30u32, rounds: 0u32 }),
            w.damage == 650,
            w == spec_uzi(),
            w.wf(),
    {
        Weapon {
            kind: WeaponKind::Uzi,
            cooldown: Cooldown::ready(100),
            ammo: Ammunition::Limited { capacity: 30, rounds: 0 },
            damage: 650,
        }
    }

    /// Three pellets per shot, a ten-shell magazine that starts empty.
    pub fn shotgun() -> (w: Weapon)
        ensures
            w.kind == WeaponKind::Shotgun,
            w.cooldown.total_ms == 1000,
            w.cooldown.remaining_ms == 0,
            w.ammo == (Ammunition::Limited { capacity: 10u32, rounds: 0u32 }),
            w.damage == 1500,
            w == spec_shotgun(),
            w.wf(),
    {
        Weapon {
            kind: WeaponKind::Shotgun,
            cooldown: Cooldown::ready(1000),
            ammo: Ammunition::Limited { capacity: 10, rounds: 0 },
            damage: 1500,
        }
    }

    /// Places a barrel one grid cell ahead instead of shooting.
    pub fn barrel_placer() -> (w: Weapon)
        ensures
            w.kind == WeaponKind::BarrelPlacer,
            w.cooldown.total_ms == 250,
            w.cooldown.remaining_ms == 0,
            w.ammo == (Ammunition::Limited { capacity: 5u32, rounds: 0u32 }),
            w.damage == 0,
            w == spec_barrel_placer(),
            w.wf(),
    {
        Weapon {
            kind: WeaponKind::BarrelPlacer,
            cooldown: Cooldown::ready(250),
            ammo: Ammunition::Limited { capacity: 5, rounds: 0 },
            damage: 0,
        }
    }

    /// Places a wall one grid cell ahead instead of shooting.
    pub fn wall_placer() -> (w: Weapon)
        ensures
            w.kind == WeaponKind::WallPlacer,
            w.cooldown.total_ms == 250,
            w.cooldown.remaining_ms == 0,
            w.ammo == (Ammunition::Limited { capacity: 5u32, rounds: 0u32 }),
            w.damage == 0,
            w == spec_wall_placer(),
            w.wf(),
    {
        Weapon {
            kind: WeaponKind::WallPlacer,
            cooldown: Cooldown::ready(250),
            ammo: Ammunition::Limited { capacity: 5, rounds: 0 },
            damage: 0,
        }
    }

    /// A weapon can fire exactly when its timer has elapsed and its ammo is
    /// not empty.
    pub open spec fn can_fire_spec(self) -> bool {
        self.cooldown.is_ready_spec() && !self.ammo.is_empty_spec()
    }

    pub fn can_fire(&self) -> (r: bool)
        requires
            self.wf(),
        ensures
            r == self.can_fire_spec(),
    {
        self.cooldown.is_ready() && !self.ammo.is_empty()
    }

    /// Whether firing places an obstacle rather than shooting bullets.
    pub open spec fn is_placer_spec(self) -> bool {
        self.kind == WeaponKind::BarrelPlacer || self.kind == WeaponKind::WallPlacer
    }

    pub fn is_placer(&self) -> (r: bool)
        ensures
            r == self.is_placer_spec(),
    {
        match self.kind {
            WeaponKind::BarrelPlacer => true,
            WeaponKind::WallPlacer => true,
            _ => false,
        }
    }

    /// The display name of the weapon.
    pub fn name(&self) -> (r: &'static str)
        ensures
            self.kind == WeaponKind::Pistol ==> r@ == "Pistol"@,
            self.kind == WeaponKind::Uzi ==> r@ == "Uzi"@,
            self.kind == WeaponKind::Shotgun ==> r@ == "Shotgun"@,
            self.kind == WeaponKind::BarrelPlacer ==> r@ == "Barrels"@,
            self.kind == WeaponKind::WallPlacer ==> r@ == "Walls"@,
    {
        match self.kind {
            WeaponKind::Pistol => "Pistol",
            WeaponKind::Uzi => "Uzi",
            WeaponKind::Shotgun => "Shotgun",
            WeaponKind::BarrelPlacer => "Barrels",
            WeaponKind::WallPlacer => "Walls",
        }
    }

    /// How many bullets one shot produces.
    pub open spec fn bullet_count_spec(self) -> int {
        match self.kind {
            WeaponKind::Pistol => 1,
            WeaponKind::Uzi => 1,
            WeaponKind::Shotgun => 3,
            WeaponKind::BarrelPlacer => 0,
            WeaponKind::WallPlacer => 0,
        }
    }

    /// The spread half-angle of this weapon's pellet at a given index.
    pub open spec fn pellet_spread_spec(self, i: int) -> int {
        kind_spread_spec(self.kind, i)
    }

    /// One shot's pellets, with each pellet's angular jitter supplied: one
    /// bullet per jitter entry, each leaving `position` at the facing
    /// direction rotated by its jitter, at bullet speed.
    pub fn bullets_with_jitter(
        &self,
        facing: Vec2,
        jitters: &Vec<i64>,
        position: Vec2,
        now_ms: u64,
    ) -> (out: Vec<Bullet>)
        requires
            self.wf(),
            facing.wf(),
            position.wf(),
            forall|i: int|
                0 <= i < jitters@.len() ==> -MAX_JITTER_MDEG <= #[trigger] jitters@[i]
                    <= MAX_JITTER_MDEG,
        ensures
            out@.len() == jitters@.len(),
            forall|i: int|
                0 <= i < out@.len() ==> #[trigger] out@[i] == bullet_spec(
                    self.damage,
                    facing,
                    jitters@[i] as int,
                    position,
                    now_ms,
                ),
            forall|i: int| 0 <= i < out@.len() ==> (#[trigger] out@[i]).birth_ms == now_ms,
            forall|i: int| 0 <= i < out@.len() ==> (#[trigger] out@[i]).wf(),
    {
        let dir = facing.normalize();
        let mut out: Vec<Bullet> = Vec::new();
        let n = jitters.len();
        let mut i: usize = 0;
        while i < n
            invariant
                n == jitters@.len(),
                0 <= i <= n,
                out@.len() == i,
                dir == facing.normalize_spec(),
                -1000 <= dir.x <= 1000,
                -1000 <= dir.y <= 1000,
                dir.wf(),
                position.wf(),
                self.wf(),
                forall|k: int|
                    0 <= k < n ==> -MAX_JITTER_MDEG <= #[trigger] jitters@[k] <= MAX_JITTER_MDEG,
                forall|k: int|
                    0 <= k < i ==> #[trigger] out@[k] == bullet_spec(
                        self.damage,
                        facing,
                        jitters@[k] as int,
                        position,
                        now_ms,
                    ),
                forall|k: int| 0 <= k < out@.len() ==> (#[trigger] out@[k]).wf(),
            decreases n - i,
        {
            let jitter = jitters[i];
            let spun = rotate(&dir, jitter);
            let velocity = spun.scale(BULLET_SPEED_FACTOR);
            proof {
                lemma_velocity_bound(spun.x as int, spun.y as int);
            }
            out.push(Bullet { position, velocity, birth_ms: now_ms, damage: self.damage });
            i = i + 1;
        }
        out
    }

    /// One shot's pellets with the jitter drawn fresh for each: every bullet
    /// is a `bullet_spec` outcome for some jitter inside that pellet's
    /// spread cone. A placer produces no bullets.
    pub fn bullets(&self, facing: Vec2, position: Vec2, now_ms: u64) -> (out: Vec<Bullet>)
        requires
            self.wf(),
            facing.wf(),
            position.wf(),
        ensures
            out@.len() == self.bullet_count_spec(),
            forall|i: int|
                0 <= i < out@.len() ==> in_spread_cone(
                    self.kind,
                    self.damage,
                    facing,
                    position,
                    now_ms,
                    i,
                    #[trigger] out@[i],
                ),
            forall|i: int| 0 <= i < out@.len() ==> (#[trigger] out@[i]).birth_ms == now_ms,
            forall|i: int| 0 <= i < out@.len() ==> (#[trigger] out@[i]).wf(),
    {
        let count: usize = match self.kind {
            WeaponKind::Pistol => 1,
            WeaponKind::Uzi => 1,
            WeaponKind::Shotgun => 3,
            WeaponKind::BarrelPlacer => 0,
            WeaponKind::WallPlacer => 0,
        };
        let mut jitters: Vec<i64> = Vec::new();
        let mut i: usize = 0;
        while i < count
            invariant
                0 <= i <= count,
                jitters@.len() == i,
                count == self.bullet_count_spec(),
                forall|k: int|
                    0 <= k < i ==> -self.pellet_spread_spec(k) <= #[trigger] jitters@[k]
                        <= self.pellet_spread_spec(k),
                forall|k: int|
                    0 <= k < i ==> -MAX_JITTER_MDEG <= #[trigger] jitters@[k] <= MAX_JITTER_MDEG,
            decreases count - i,
        {
            let spread: i64 = match self.kind {
                WeaponKind::Shotgun => 1500 + 4250 * (i as i64),
                _ => 5000,
            };
            proof {
                assert(self.kind == WeaponKind::Shotgun ==> i < 3);
                assert(spread <= MAX_JITTER_MDEG);
            }
            let jitter = rand_range_i64(-spread, spread + 1);
            jitters.push(jitter);
            i = i + 1;
        }
        let out = self.bullets_with_jitter(facing, &jitters, position, now_ms);
        proof {
            assert forall|k: int|
                0 <= k < out@.len() implies in_spread_cone(
                self.kind,
                self.damage,
                facing,
                position,
                now_ms,
                k,
                #[trigger] out@[k],
            ) by {
                let j = jitters@[k] as int;
                assert(-self.pellet_spread_spec(k) <= j <= self.pellet_spread_spec(k) && out@[k]
                    == bullet_spec(self.damage, facing, j, position, now_ms));
                lemma_in_spread_cone(self.kind, self.damage, facing, position, now_ms, k, out@[k], j);
            }
        }
        out
    }
}

/// The bullet one pellet becomes: it starts at the shooter's position, aimed
/// along the facing direction rotated by the pellet's jitter, at bullet
/// speed, carrying the weapon's damage.
pub open spec fn bullet_spec(
    damage: i64,
    facing: Vec2,
    jitter: int,
    position: Vec2,
    now_ms: u64,
) -> Bullet {
    Bullet {
        position,
        velocity: rotate_spec(facing.normalize_spec(), jitter).scale_spec(
            BULLET_SPEED_FACTOR as int,
        ),
        birth_ms: now_ms,
        damage,
    }
}

/// The spread half-angle of the pellet at a given index, in milli-degrees:
/// a flat five degrees for the single-bullet weapons, an escalating cone for
/// the shotgun.
pub open spec fn kind_spread_spec(kind: WeaponKind, i: int) -> int {
    match kind {
        WeaponKind::Shotgun => 1500 + 4250 * i,
        _ => 5000,
    }
}

/// A rotated unit direction scaled to bullet speed stays well inside the
/// velocity band.
proof fn lemma_velocity_bound(x: int, y: int)
    requires
        -1175 <= x <= 1175,
        -1175 <= y <= 1175,
    ensures
        -VEL_LIMIT <= crate::geom::clamp_coord_spec(crate::geom::mul_milli_spec(x, 40_000))
            <= VEL_LIMIT,
        -VEL_LIMIT <= crate::geom::clamp_coord_spec(crate::geom::mul_milli_spec(y, 40_000))
            <= VEL_LIMIT,
{
    assert(-47_000_000 <= x * 40_000 <= 47_000_000 && -47_000_000 <= y * 40_000 <= 47_000_000)
        by (nonlinear_arith)
        requires
            -1175 <= x <= 1175,
            -1175 <= y <= 1175,
    ;
}

/// The bullet at pellet index `i` left along the facing direction rotated by
/// some jitter inside that pellet's spread cone.
pub open spec fn in_spread_cone(
    kind: WeaponKind,
    damage: i64,
    facing: Vec2,
    position: Vec2,
    now_ms: u64,
    i: int,
    b: Bullet,
) -> bool {
    exists|jitter: int|
        #![trigger bullet_spec(damage, facing, jitter, position, now_ms)]
        -kind_spread_spec(kind, i) <= jitter <= kind_spread_spec(kind, i) && b == bullet_spec(
            damage,
            facing,
            jitter,
            position,
            now_ms,
        )
}

/// A concrete jitter witnesses membership in the spread cone.
proof fn lemma_in_spread_cone(
    kind: WeaponKind,
    damage: i64,
    facing: Vec2,
    position: Vec2,
    now_ms: u64,
    i: int,
    b: Bullet,
    jitter: int,
)
    requires
        -kind_spread_spec(kind, i) <= jitter <= kind_spread_spec(kind, i),
        b == bullet_spec(damage, facing, jitter, position, now_ms),
    ensures
        in_spread_cone(kind, damage, facing, position, now_ms, i, b),
{
    assert(-kind_spread_spec(kind, i) <= jitter <= kind_spread_spec(kind, i) && b == bullet_spec(
        damage,
        facing,
        jitter,
        position,
        now_ms,
    ));
}

/// The starting pistol, as a value.
pub open spec fn spec_pistol() -> Weapon {
    Weapon {
        kind: WeaponKind::Pistol,
        cooldown: Cooldown { total_ms: 500, remaining_ms: 0, state: TimerState::Ready },
        ammo: Ammunition::Infinite,
        damage: 750,
    }
}

/// The starting uzi, as a value.
pub open spec fn spec_uzi() -> Weapon {
    Weapon {
        kind: WeaponKind::Uzi,
        cooldown: Cooldown { total_ms: 100, remaining_ms: 0, state: TimerState::Ready },
        ammo: Ammunition::Limited { capacity: 30u32, rounds: 0u32 },
        damage: 650,
    }
}

/// The starting shotgun, as a value.
pub open spec fn spec_shotgun() -> Weapon {
    Weapon {
        kind: WeaponKind::Shotgun,
        cooldown: Cooldown { total_ms: 1000, remaining_ms: 0, state: TimerState::Ready },
        ammo: Ammunition::Limited { capacity: 10u32, rounds: 0u32 },
        damage: 1500,
    }
}

/// The starting barrel placer, as a value.
pub open spec fn spec_barrel_placer() -> Weapon {
    Weapon {
        kind: WeaponKind::BarrelPlacer,
        cooldown: Cooldown { total_ms: 250, remaining_ms: 0, state: TimerState::Ready },
        ammo: Ammunition::Limited { capacity: 5u32, rounds: 0u32 },
        damage: 0,
    }
}

/// The starting wall placer, as a value.
pub open spec fn spec_wall_placer() -> Weapon {
    Weapon {
        kind: WeaponKind::WallPlacer,
        cooldown: Cooldown { total_ms: 250, remaining_ms: 0, state: TimerState::Ready },
        ammo: Ammunition::Limited { capacity: 5u32, rounds: 0u32 },
        damage: 0,
    }
}

} // verus!
