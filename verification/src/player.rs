use vstd::prelude::*;

use crate::ammo::Ammunition;
use crate::entity::{BoundingCircle, HEALTH_LIMIT, PLAYER_RADIUS};
use crate::geom::Vec2;
use crate::weapon::{Weapon, WeaponKind};

verus! {

/// The player's starting (and maximum) health, in hundredths.
pub const PLAYER_HEALTH_MAX: i64 = 3000;

/// Which weapon an ammo crate refills.
#[derive(Clone, Copy, Debug, PartialEq, Eq, Structural)]
pub enum AmmoPickup {
    Uzi,
    Shotgun,
    Wall,
    Barrel,
}

impl AmmoPickup {
    /// The alert text a pickup of this kind posts.
    pub fn label(&self) -> (r: &'static str)
        ensures
            self is Uzi ==> r@ == "uzi ammo"@,
            self is Shotgun ==> r@ == "shotgun ammo"@,
            self is Wall ==> r@ == "wall ammo"@,
            self is Barrel ==> r@ == "barrel ammo"@,
    {
        match self {
            AmmoPickup::Uzi => "uzi ammo",
            AmmoPickup::Shotgun => "shotgun ammo",
            AmmoPickup::Wall => "wall ammo",
            AmmoPickup::Barrel => "barrel ammo",
        }
    }

    /// The weapon slot this pickup refills.
    pub open spec fn weapon_index_spec(self) -> int {
        match self {
            AmmoPickup::Uzi => 1,
            AmmoPickup::Shotgun => 2,
            AmmoPickup::Wall => 4,
            AmmoPickup::Barrel => 3,
        }
    }

    pub fn weapon_index(&self) -> (r: usize)
        ensures
            r as int == self.weapon_index_spec(),
            1 <= r <= 4,
    {
        match self {
            AmmoPickup::Uzi => 1,
            AmmoPickup::Shotgun => 2,
            AmmoPickup::Wall => 4,
            AmmoPickup::Barrel => 3,
        }
    }
}

/// The single player: position, a unit facing vector, health, the ordered
/// weapon rack, and which weapon is in hand.
#[derive(Clone, Debug)]
pub struct Player {
    pub position: Vec2,
    pub facing: Vec2,
    pub health: i64,
    pub weapons: Vec<Weapon>,
    pub must_release_shoot: bool,
    pub selected_weapon: usize,
}

impl Player {
    /// Well-formedness: the rack holds the five weapons in their fixed
    /// order, the selection is in range, and every part is in its own band.
    pub open spec fn wf(self) -> bool {
        &&& self.position.wf()
        &&& self.facing.wf()
        &&& -HEALTH_LIMIT <= self.health <= HEALTH_LIMIT
        &&& self.weapons@.len() == 5
        &&& self.selected_weapon < 5
        &&& (forall|i: int| 0 <= i < 5 ==> (#[trigger] self.weapons@[i]).wf())
        &&& self.weapons@[0].kind == WeaponKind::Pistol
        &&& self.weapons@[1].kind == WeaponKind::Uzi
        &&& self.weapons@[2].kind == WeaponKind::Shotgun
        &&& self.weapons@[3].kind == WeaponKind::BarrelPlacer
        &&& self.weapons@[4].kind == WeaponKind::WallPlacer
    }

    /// A fresh player at the room's center, facing up, pistol in hand.
    pub fn new() -> (p: Player)
        ensures
            p.wf(),
            p.position == (Vec2 { x: 0, y: 0 }),
            p.facing == (Vec2 { x: 0, y: 1000 }),
            p.health == PLAYER_HEALTH_MAX,
            p.selected_weapon == 0,
            p.must_release_shoot == false,
            p.weapons@[0] == crate::weapon::spec_pistol(),
            p.weapons@[1] == crate::weapon::spec_uzi(),
            p.weapons@[2] == crate::weapon::spec_shotgun(),
            p.weapons@[3] == crate::weapon::spec_barrel_placer(),
            p.weapons@[4] == crate::weapon::spec_wall_placer(),
    {
        let mut weapons: Vec<Weapon> = Vec::new();
        weapons.push(Weapon::pistol());
        weapons.push(Weapon::uzi());
        weapons.push(Weapon::shotgun());
        weapons.push(Weapon::barrel_placer());
        weapons.push(Weapon::wall_placer());
        Player {
            position: Vec2 { x: 0, y: 0 },
            facing: Vec2 { x: 0, y: 1000 },
            health: PLAYER_HEALTH_MAX,
            weapons,
            must_release_shoot: false,
            selected_weapon: 0,
        }
    }

    pub open spec fn bounds_spec(self) -> BoundingCircle {
        BoundingCircle { center: self.position, radius: PLAYER_RADIUS }
    }

    pub fn bounds(&self) -> (c: BoundingCircle)
        requires
            self.wf(),
        ensures
            c == self.bounds_spec(),
            c.wf(),
    {
        BoundingCircle { center: self.position, radius: PLAYER_RADIUS }
    }

    /// The weapon in hand.
    pub fn weapon(&self) -> (w: &Weapon)
        requires
            self.wf(),
        ensures
            *w == self.weapons@[self.selected_weapon as int],
            w.wf(),
    {
        &self.weapons[self.selected_weapon]
    }

    /// The weapon in hand, for mutation: afterwards the rack holds the new
    /// value in the selected slot and nothing else has moved.
    pub fn weapon_mut(&mut self) -> (w: &mut Weapon)
        requires
            old(self).wf(),
        ensures
            *w == old(self).weapons@[old(self).selected_weapon as int],
            final(self).weapons@ == old(self).weapons@.update(
                old(self).selected_weapon as int,
                *final(w),
            ),
            final(self).position == old(self).position,
            final(self).facing == old(self).facing,
            final(self).health == old(self).health,
            final(self).must_release_shoot == old(self).must_release_shoot,
            final(self).selected_weapon == old(self).selected_weapon,
    {
        &mut self.weapons[self.selected_weapon]
    }

    /// One frame for the player: the held weapon's timer counts down.
    pub fn tick(&mut self, delta_ms: u64)
        requires
            old(self).wf(),
        ensures
            final(self).wf(),
            final(self).weapons@ == old(self).weapons@.update(
                old(self).selected_weapon as int,
                Weapon {
                    cooldown: final(self).weapons@[old(self).selected_weapon as int].cooldown,
                    ..old(self).weapons@[old(self).selected_weapon as int]
                },
            ),
            final(self).weapons@[old(self).selected_weapon as int].cooldown.remaining_ms == {
                let r = old(self).weapons@[old(self).selected_weapon as int].cooldown.remaining_ms;
                if delta_ms >= r {
                    0u64
                } else {
                    (r - delta_ms) as u64
                }
            },
            final(self).position == old(self).position,
            final(self).facing == old(self).facing,
            final(self).health == old(self).health,
            final(self).must_release_shoot == old(self).must_release_shoot,
            final(self).selected_weapon == old(self).selected_weapon,
    {
        let sel = self.selected_weapon;
        let w = &mut self.weapons[sel];
        w.cooldown.subtract(delta_ms);
    }

    /// Pick a weapon by index. The selection is refused — and the hand left
    /// where it was — exactly when the index is out of range or that
    /// weapon's ammo is empty; either way the trigger must be released
    /// before the next shot.
    pub fn select_weapon(&mut self, index: usize) -> (ok: bool)
        requires
            old(self).wf(),
        ensures
            final(self).wf(),
            ok == (index < old(self).weapons@.len() && !old(self).weapons@[index as int]
                .ammo.is_empty_spec()),
            final(self).selected_weapon == if ok {
                index as usize
            } else {
                old(self).selected_weapon
            },
            final(self).must_release_shoot == true,
            final(self).weapons@ == old(self).weapons@,
            final(self).position == old(self).position,
            final(self).facing == old(self).facing,
            final(self).health == old(self).health,
    {
        self.must_release_shoot = true;
        if index >= self.weapons.len() {
            false
        } else {
            let empty = {
                let w = &self.weapons[index];
                w.ammo.is_empty()
            };
            if empty {
                false
            } else {
                self.selected_weapon = index;
                true
            }
        }
    }

    /// Step the selection down, skipping weapons with empty ammo, stopping
    /// at the nearest selectable one; no wrap-around. Afterwards the hand is
    /// on the nearest lower selectable slot if one exists, else unmoved.
    pub fn decrement_weapon(&mut self) -> (ok: bool)
        requires
            old(self).wf(),
        ensures
            final(self).wf(),
            ok == exists|k: int|
                0 <= k < old(self).selected_weapon && !(#[trigger] old(self).weapons@[k])
                    .ammo.is_empty_spec(),
            ok ==> final(self).selected_weapon < old(self).selected_weapon && !old(
                self,
            ).weapons@[final(self).selected_weapon as int].ammo.is_empty_spec() && (forall|k: int|
                final(self).selected_weapon < k < old(self).selected_weapon ==> (
                #[trigger] old(self).weapons@[k]).ammo.is_empty_spec()),
            !ok ==> final(self).selected_weapon == old(self).selected_weapon,
            final(self).weapons@ == old(self).weapons@,
            final(self).position == old(self).position,
            final(self).facing == old(self).facing,
            final(self).health == old(self).health,
    {
        let start = self.selected_weapon;
        if start != 0 {
            let mut idx: usize = start;
            while idx > 0
                invariant
                    self.wf(),
                    idx <= start,
                    start == self.selected_weapon,
                    start < 5,
                    self.weapons@ == old(self).weapons@,
                    self.position == old(self).position,
                    self.facing == old(self).facing,
                    self.health == old(self).health,
                    self.selected_weapon == old(self).selected_weapon,
                    forall|k: int|
                        idx <= k < start ==> (#[trigger] self.weapons@[k]).ammo.is_empty_spec(),
                decreases idx,
            {
                idx = idx - 1;
                if self.select_weapon(idx) {
                    return true;
                }
            }
        }
        false
    }

    /// Step the selection up, skipping weapons with empty ammo, stopping at
    /// the nearest selectable one; no wrap-around.
    pub fn increment_weapon(&mut self) -> (ok: bool)
        requires
            old(self).wf(),
        ensures
            final(self).wf(),
            ok == exists|k: int|
                old(self).selected_weapon < k < old(self).weapons@.len() && !(
                #[trigger] old(self).weapons@[k]).ammo.is_empty_spec(),
            ok ==> final(self).selected_weapon > old(self).selected_weapon && !old(
                self,
            ).weapons@[final(self).selected_weapon as int].ammo.is_empty_spec() && (forall|k: int|
                old(self).selected_weapon < k < final(self).selected_weapon ==> (
                #[trigger] old(self).weapons@[k]).ammo.is_empty_spec()),
            !ok ==> final(self).selected_weapon == old(self).selected_weapon,
            final(self).weapons@ == old(self).weapons@,
            final(self).position == old(self).position,
            final(self).facing == old(self).facing,
            final(self).health == old(self).health,
    {
        let start = self.selected_weapon;
        if start < self.weapons.len() - 1 {
            let mut idx: usize = start + 1;
            let n = self.weapons.len();
            while idx < n
                invariant
                    self.wf(),
                    start + 1 <= idx <= n,
                    n == 5,
                    start == self.selected_weapon,
                    start < 5,
                    self.weapons@ == old(self).weapons@,
                    self.position == old(self).position,
                    self.facing == old(self).facing,
                    self.health == old(self).health,
                    self.selected_weapon == old(self).selected_weapon,
                    forall|k: int|
                        start < k < idx ==> (#[trigger] self.weapons@[k]).ammo.is_empty_spec(),
                decreases n - idx,
            {
                if self.select_weapon(idx) {
                    return true;
                }
                idx = idx + 1;
            }
        }
        false
    }

    /// Collect an ammo crate: the matching weapon's magazine refills.
    pub fn pickedup(&mut self, pickedup: AmmoPickup)
        requires
            old(self).wf(),
        ensures
            final(self).wf(),
            final(self).weapons@ == old(self).weapons@.update(
                pickedup.weapon_index_spec(),
                Weapon {
                    ammo: old(self).weapons@[pickedup.weapon_index_spec()].ammo.reload_spec(),
                    ..old(self).weapons@[pickedup.weapon_index_spec()]
                },
            ),
            final(self).position == old(self).position,
            final(self).facing == old(self).facing,
            final(self).health == old(self).health,
            final(self).selected_weapon == old(self).selected_weapon,
            final(self).must_release_shoot == old(self).must_release_shoot,
    {
        let weapon_index = pickedup.weapon_index();
        let w = &mut self.weapons[weapon_index];
        w.ammo.reload();
    }

    /// Whether the weapon in hand places an object rather than shooting.
    pub open spec fn weapon_is_object_spec(self) -> bool {
        self.selected_weapon == 3 || self.selected_weapon == 4
    }

    pub fn weapon_is_object(&self) -> (r: bool)
        ensures
            r == self.weapon_is_object_spec(),
    {
        self.selected_weapon == 3 || self.selected_weapon == 4
    }
}

impl Default for Player {
    /// The starting player.
    fn default() -> (p: Player)
        ensures
            p.wf(),
            p.health == PLAYER_HEALTH_MAX,
            p.selected_weapon == 0,
    {
        Player::new()
    }
}

} // verus!
