use vstd::prelude::*;

use crate::ammo::Ammunition;
use crate::cooldown::Cooldown;
use crate::entity::DMG_LIMIT;
use crate::player::{AmmoPickup, Player};
use crate::weapon::Weapon;

verus! {

/// The multiplier's ceiling.
pub const MULTIPLIER_MAX: u32 = 30;

/// The score multiplier: grows by one per kill up to its ceiling, decays by
/// one whenever its timer elapses, never below one. The higher it stands,
/// the shorter the timer it rearms with: `2000 - 66 * current` milliseconds.
#[derive(Clone, Copy, Debug, PartialEq, Eq, Structural)]
pub struct Multiplier {
    pub current: u32,
    pub cooldown: Cooldown,
}

/// The decay period at a given multiplier value, in milliseconds.
pub open spec fn decay_period_spec(current: u32) -> u64 {
    (2000 - 66 * current) as u64
}

/// The timer a multiplier value rearms with: its decay period, fully armed.
pub open spec fn decay_cooldown_spec(current: u32) -> Cooldown {
    Cooldown {
        total_ms: decay_period_spec(current),
        remaining_ms: decay_period_spec(current),
        state: crate::cooldown::TimerState::Waiting,
    }
}

/// The multiplier after one downward step: at the floor nothing happens;
/// above it the value drops by one and the timer rearms for the new value.
pub open spec fn decremented_multiplier_spec(m: Multiplier) -> Multiplier {
    if m.current == 1 {
        m
    } else {
        Multiplier {
            current: (m.current - 1) as u32,
            cooldown: decay_cooldown_spec((m.current - 1) as u32),
        }
    }
}

/// The multiplier after one upward step: at the ceiling only the timer
/// rearms; below it the value climbs by one and the timer rearms for the
/// new, shorter period.
pub open spec fn incremented_multiplier_spec(m: Multiplier) -> Multiplier {
    if m.current == MULTIPLIER_MAX {
        Multiplier { current: m.current, cooldown: m.cooldown.reset_spec() }
    } else {
        Multiplier {
            current: (m.current + 1) as u32,
            cooldown: decay_cooldown_spec((m.current + 1) as u32),
        }
    }
}

/// The multiplier after one frame of decay: the timer counts down, and the
/// moment it elapses the multiplier steps down once.
pub open spec fn subtracted_multiplier_spec(m: Multiplier, delta_ms: u64) -> Multiplier {
    if delta_ms >= m.cooldown.remaining_ms {
        decremented_multiplier_spec(
            Multiplier {
                current: m.current,
                cooldown: Cooldown {
                    total_ms: m.cooldown.total_ms,
                    remaining_ms: 0,
                    state: crate::cooldown::TimerState::Ready,
                },
            },
        )
    } else {
        Multiplier {
            current: m.current,
            cooldown: Cooldown {
                total_ms: m.cooldown.total_ms,
                remaining_ms: (m.cooldown.remaining_ms - delta_ms) as u64,
                state: crate::cooldown::TimerState::Waiting,
            },
        }
    }
}

/// The multiplier after a run of upward steps.
pub open spec fn incremented_n_spec(m: Multiplier, n: nat) -> Multiplier
    decreases n,
{
    if n == 0 {
        m
    } else {
        incremented_n_spec(incremented_multiplier_spec(m), (n - 1) as nat)
    }
}

impl Multiplier {
    pub open spec fn wf(self) -> bool {
        &&& 1 <= self.current <= MULTIPLIER_MAX
        &&& self.cooldown.wf()
    }

    /// A fresh multiplier: one, with a two-second timer already elapsed.
    pub fn new() -> (m: Multiplier)
        ensures
            m.wf(),
            m.current == 1,
            m.cooldown.total_ms == 2000,
            m.cooldown.remaining_ms == 0,
    {
        Multiplier { current: 1, cooldown: Cooldown::ready(2000) }
    }

    /// Rearm the decay timer for the current value.
    fn set_cooldown(&mut self)
        requires
            1 <= old(self).current <= MULTIPLIER_MAX,
        ensures
            final(self).current == old(self).current,
            final(self).cooldown.total_ms == decay_period_spec(old(self).current),
            final(self).cooldown.remaining_ms == decay_period_spec(old(self).current),
            final(self).wf(),
    {
        self.cooldown = Cooldown::waiting(2000 - 66 * (self.current as u64));
    }

    /// Step the multiplier down by one, never below one; at one, nothing
    /// happens. A real step rearms the timer for the new value.
    pub fn decrement(&mut self)
        requires
            old(self).wf(),
        ensures
            final(self).wf(),
            *final(self) == decremented_multiplier_spec(*old(self)),
            old(self).current == 1 ==> *final(self) == *old(self),
            old(self).current > 1 ==> final(self).current == old(self).current - 1 && final(self).cooldown.remaining_ms == decay_period_spec(final(self).current) && final(self).cooldown.total_ms == decay_period_spec(final(self).current),
    {
        if self.current == 1 {
            return ;
        }
        self.current = self.current - 1;
        self.set_cooldown();
    }

    /// Step the multiplier up by one, capped at the ceiling; at the ceiling
    /// the timer merely rearms. A real step rearms the timer for the new,
    /// shorter period.
    pub fn increment(&mut self)
        requires
            old(self).wf(),
        ensures
            final(self).wf(),
            *final(self) == incremented_multiplier_spec(*old(self)),
            old(self).current == MULTIPLIER_MAX ==> final(self).current == old(self).current
                && final(self).cooldown.total_ms == old(self).cooldown.total_ms && final(self).cooldown.remaining_ms == old(self).cooldown.total_ms,
            old(self).current < MULTIPLIER_MAX ==> final(self).current == old(self).current + 1
                && final(self).cooldown.remaining_ms == decay_period_spec(final(self).current)
                && final(self).cooldown.total_ms == decay_period_spec(final(self).current),
    {
        if self.current == MULTIPLIER_MAX {
            self.cooldown.reset();
            return ;
        }
        self.current = self.current + 1;
        self.set_cooldown();
    }

    /// One frame of decay: the timer counts down, and the moment it elapses
    /// the multiplier steps down once (and, above one, rearms).
    pub fn subtract(&mut self, delta_ms: u64)
        requires
            old(self).wf(),
        ensures
            final(self).wf(),
            *final(self) == subtracted_multiplier_spec(*old(self), delta_ms),
            final(self).current == if delta_ms >= old(self).cooldown.remaining_ms && old(self).current > 1 {
                (old(self).current - 1) as u32
            } else {
                old(self).current
            },
            delta_ms >= old(self).cooldown.remaining_ms && old(self).current > 1 ==> final(self).cooldown.total_ms == decay_period_spec(final(self).current) && final(self).cooldown.remaining_ms == decay_period_spec(final(self).current),
            delta_ms >= old(self).cooldown.remaining_ms && old(self).current == 1 ==> final(self).cooldown.remaining_ms == 0 && final(self).cooldown.total_ms == old(self).cooldown.total_ms,
            delta_ms < old(self).cooldown.remaining_ms ==> final(self).cooldown.remaining_ms == old(self).cooldown.remaining_ms - delta_ms && final(self).cooldown.total_ms == old(self).cooldown.total_ms,
    {
        self.cooldown.subtract(delta_ms);
        if self.cooldown.is_ready() {
            self.decrement();
        }
    }

    /// How much of the decay period has elapsed, in thousandths; pinned to
    /// zero while the multiplier sits at its floor.
    pub fn percent_milli(&self) -> (p: u64)
        requires
            self.wf(),
        ensures
            self.current > 1 ==> p == self.cooldown.percent_milli_spec(),
            self.current == 1 ==> p == 0,
            0 <= p <= 1000,
    {
        if self.current > 1 {
            self.cooldown.percent_milli()
        } else {
            0
        }
    }
}

/// What one rung of the upgrade ladder does, each to exactly one weapon.
#[derive(Clone, Copy, Debug, PartialEq, Eq, Structural)]
pub enum UpgradeKind {
    PistolFast,
    UziUnlock,
    PistolDouble,
    ShotgunUnlock,
    UziFast,
    BarrelUnlock,
    UziDoubleAmmo,
    ShotgunFast,
    ShotgunDoubleAmmo,
    BarrelDoubleAmmo,
    WallUnlock,
}

impl UpgradeKind {
    /// The alert text this upgrade posts.
    pub fn label(&self) -> (r: &'static str)
        ensures
            self is PistolFast ==> r@ == "pistol fast fire"@,
            self is UziUnlock ==> r@ == "uzi unlocked"@,
            self is PistolDouble ==> r@ == "pistol double damge"@,
            self is ShotgunUnlock ==> r@ == "shotgun unlocked"@,
            self is UziFast ==> r@ == "uzi rapid fire"@,
            self is BarrelUnlock ==> r@ == "barrels unlocked"@,
            self is UziDoubleAmmo ==> r@ == "uzi double ammo"@,
            self is ShotgunFast ==> r@ == "shotgun fast fire"@,
            self is ShotgunDoubleAmmo ==> r@ == "shotgun double ammo"@,
            self is BarrelDoubleAmmo ==> r@ == "barrel double ammo"@,
            self is WallUnlock ==> r@ == "wall unlock"@,
    {
        match self {
            UpgradeKind::PistolFast => "pistol fast fire",
            UpgradeKind::UziUnlock => "uzi unlocked",
            UpgradeKind::PistolDouble => "pistol double damge",
            UpgradeKind::ShotgunUnlock => "shotgun unlocked",
            UpgradeKind::UziFast => "uzi rapid fire",
            UpgradeKind::BarrelUnlock => "barrels unlocked",
            UpgradeKind::UziDoubleAmmo => "uzi double ammo",
            UpgradeKind::ShotgunFast => "shotgun fast fire",
            UpgradeKind::ShotgunDoubleAmmo => "shotgun double ammo",
            UpgradeKind::BarrelDoubleAmmo => "barrel double ammo",
            UpgradeKind::WallUnlock => "wall unlock",
        }
    }
}

/// One rung of the ladder: a score threshold and what passing it grants.
#[derive(Clone, Copy, Debug, PartialEq, Eq, Structural)]
pub struct Upgrade {
    pub score: u64,
    pub kind: UpgradeKind,
}

impl Upgrade {
    pub fn new(score: u64, kind: UpgradeKind) -> (u: Upgrade)
        ensures
            u == (Upgrade { score, kind }),
    {
        Upgrade { score, kind }
    }

    /// The fixed ladder, in strictly ascending score order; consumed from
    /// the front as the score passes each threshold.
    pub fn upgrade_list() -> (list: Vec<Upgrade>)
        ensures
            list@ == spec_upgrade_list(),
            upgrades_sorted(list@),
    {
        let mut ret: Vec<Upgrade> = Vec::new();
        ret.push(Upgrade { score: 300, kind: UpgradeKind::PistolFast });
        ret.push(Upgrade { score: 900, kind: UpgradeKind::UziUnlock });
        ret.push(Upgrade { score: 1700, kind: UpgradeKind::PistolDouble });
        ret.push(Upgrade { score: 6500, kind: UpgradeKind::ShotgunUnlock });
        ret.push(Upgrade { score: 10000, kind: UpgradeKind::UziFast });
        ret.push(Upgrade { score: 56000, kind: UpgradeKind::BarrelUnlock });
        ret.push(Upgrade { score: 96500, kind: UpgradeKind::UziDoubleAmmo });
        ret.push(Upgrade { score: 100000, kind: UpgradeKind::ShotgunFast });
        ret.push(Upgrade { score: 125000, kind: UpgradeKind::ShotgunDoubleAmmo });
        ret.push(Upgrade { score: 175000, kind: UpgradeKind::BarrelDoubleAmmo });
        ret.push(Upgrade { score: 250000, kind: UpgradeKind::WallUnlock });
        proof {
            assert(ret@ =~= spec_upgrade_list());
            assert forall|i: int, j: int|
                0 <= i < j < ret@.len() implies (#[trigger] ret@[i]).score <= (
            #[trigger] ret@[j]).score by {
            }
        }
        ret
    }
}

/// The ladder, as a value.
pub open spec fn spec_upgrade_list() -> Seq<Upgrade> {
    seq![
        Upgrade { score: 300, kind: UpgradeKind::PistolFast },
        Upgrade { score: 900, kind: UpgradeKind::UziUnlock },
        Upgrade { score: 1700, kind: UpgradeKind::PistolDouble },
        Upgrade { score: 6500, kind: UpgradeKind::ShotgunUnlock },
        Upgrade { score: 10000, kind: UpgradeKind::UziFast },
        Upgrade { score: 56000, kind: UpgradeKind::BarrelUnlock },
        Upgrade { score: 96500, kind: UpgradeKind::UziDoubleAmmo },
        Upgrade { score: 100000, kind: UpgradeKind::ShotgunFast },
        Upgrade { score: 125000, kind: UpgradeKind::ShotgunDoubleAmmo },
        Upgrade { score: 175000, kind: UpgradeKind::BarrelDoubleAmmo },
        Upgrade { score: 250000, kind: UpgradeKind::WallUnlock },
    ]
}

/// Ascending thresholds, front to back.
pub open spec fn upgrades_sorted(q: Seq<Upgrade>) -> bool {
    forall|i: int, j: int| 0 <= i < j < q.len() ==> (#[trigger] q[i]).score <= (#[trigger] q[j]).score
}


/// Which weapon slot a rung touches.
pub open spec fn upgrade_slot_spec(kind: UpgradeKind) -> int {
    match kind {
        UpgradeKind::PistolFast => 0,
        UpgradeKind::UziUnlock => 1,
        UpgradeKind::PistolDouble => 0,
        UpgradeKind::ShotgunUnlock => 2,
        UpgradeKind::UziFast => 1,
        UpgradeKind::BarrelUnlock => 3,
        UpgradeKind::UziDoubleAmmo => 1,
        UpgradeKind::ShotgunFast => 2,
        UpgradeKind::ShotgunDoubleAmmo => 2,
        UpgradeKind::BarrelDoubleAmmo => 3,
        UpgradeKind::WallUnlock => 4,
    }
}

/// A cooldown with its period halved, the time left clipped to the new
/// period.
pub open spec fn halved_cooldown_spec(c: Cooldown) -> Cooldown {
    let total = c.total_ms / 2;
    let remaining = if c.remaining_ms > total {
        total
    } else {
        c.remaining_ms
    };
    Cooldown {
        total_ms: total,
        remaining_ms: remaining,
        state: if remaining == 0 {
            crate::cooldown::TimerState::Ready
        } else {
            crate::cooldown::TimerState::Waiting
        },
    }
}

/// Damage doubled, capped at the damage band.
pub open spec fn doubled_damage_spec(d: i64) -> i64 {
    if d * 2 > DMG_LIMIT {
        DMG_LIMIT
    } else {
        (d * 2) as i64
    }
}

/// What a rung does to its weapon.
pub open spec fn upgraded_weapon_spec(w: Weapon, kind: UpgradeKind) -> Weapon {
    match kind {
        UpgradeKind::PistolFast => Weapon { cooldown: halved_cooldown_spec(w.cooldown), ..w },
        UpgradeKind::UziFast => Weapon { cooldown: halved_cooldown_spec(w.cooldown), ..w },
        UpgradeKind::ShotgunFast => Weapon { cooldown: halved_cooldown_spec(w.cooldown), ..w },
        UpgradeKind::PistolDouble => Weapon { damage: doubled_damage_spec(w.damage), ..w },
        UpgradeKind::UziDoubleAmmo => Weapon { ammo: w.ammo.scale_magazine_spec(2000), ..w },
        UpgradeKind::ShotgunDoubleAmmo => Weapon { ammo: w.ammo.scale_magazine_spec(2000), ..w },
        UpgradeKind::BarrelDoubleAmmo => Weapon { ammo: w.ammo.scale_magazine_spec(2000), ..w },
        UpgradeKind::UziUnlock => Weapon { ammo: w.ammo.reload_spec(), ..w },
        UpgradeKind::ShotgunUnlock => Weapon { ammo: w.ammo.reload_spec(), ..w },
        UpgradeKind::BarrelUnlock => Weapon { ammo: w.ammo.reload_spec(), ..w },
        UpgradeKind::WallUnlock => Weapon { ammo: w.ammo.reload_spec(), ..w },
    }
}

/// What a rung adds to the pickup-drop pool: unlocks register their ammo
/// kind, the rest add nothing.
pub open spec fn upgrade_pool_spec(pool: Seq<AmmoPickup>, kind: UpgradeKind) -> Seq<AmmoPickup> {
    match kind {
        UpgradeKind::UziUnlock => pool.push(AmmoPickup::Uzi),
        UpgradeKind::ShotgunUnlock => pool.push(AmmoPickup::Shotgun),
        UpgradeKind::BarrelUnlock => pool.push(AmmoPickup::Barrel),
        UpgradeKind::WallUnlock => pool.push(AmmoPickup::Wall),
        _ => pool,
    }
}

/// Dequeue every rung whose threshold the score now meets: the queue splits
/// at the first rung still out of reach; what comes off the front is
/// returned in queue order, and what stays starts with a rung above the
/// score (if anything stays). Nothing is reordered and nothing is kept and
/// returned both.
pub fn drain_ready_upgrades(upgrades: &mut Vec<Upgrade>, score: u64) -> (todo: Vec<Upgrade>)
    requires
        upgrades_sorted(old(upgrades)@),
    ensures
        todo@ + final(upgrades)@ == old(upgrades)@,
        forall|i: int| 0 <= i < todo@.len() ==> (#[trigger] todo@[i]).score <= score,
        final(upgrades)@.len() > 0 ==> final(upgrades)@[0].score > score,
        upgrades_sorted(final(upgrades)@),
        upgrades_sorted(todo@),
{
    let ghost orig = upgrades@;
    let mut todo: Vec<Upgrade> = Vec::new();
    loop
        invariant
            todo@ + upgrades@ == orig,
            upgrades_sorted(orig),
            forall|i: int| 0 <= i < todo@.len() ==> (#[trigger] todo@[i]).score <= score,
        ensures
            todo@ + upgrades@ == orig,
            forall|i: int| 0 <= i < todo@.len() ==> (#[trigger] todo@[i]).score <= score,
            upgrades@.len() > 0 ==> upgrades@[0].score > score,
        decreases upgrades@.len(),
    {
        if upgrades.len() == 0 {
            break;
        }
        let front_score = {
            let front = &upgrades[0];
            front.score
        };
        if front_score <= score {
            let up = upgrades.remove(0);
            todo.push(up);
            proof {
                assert(todo@ + upgrades@ =~= orig);
            }
        } else {
            break;
        }
    }
    proof {
        let k = todo@.len() as int;
        assert forall|i: int| 0 <= i < k implies todo@[i] == orig.take(k)[i] by {
            assert((todo@ + upgrades@)[i] == todo@[i]);
        }
        assert(todo@ =~= orig.take(k));
        assert forall|i: int|
            0 <= i < upgrades@.len() implies upgrades@[i] == orig.skip(k)[i] by {
            assert((todo@ + upgrades@)[k + i] == upgrades@[i]);
        }
        assert(upgrades@ =~= orig.skip(k));
        lemma_sorted_split(orig, k);
    }
    todo
}

/// Both halves of a sorted queue, split anywhere, are sorted.
proof fn lemma_sorted_split(q: Seq<Upgrade>, k: int)
    requires
        upgrades_sorted(q),
        0 <= k <= q.len(),
    ensures
        upgrades_sorted(q.take(k)),
        upgrades_sorted(q.skip(k)),
{
    assert forall|i: int, j: int|
        0 <= i < j < q.take(k).len() implies (#[trigger] q.take(k)[i]).score <= (
    #[trigger] q.take(k)[j]).score by {
        assert(q.take(k)[i] == q[i] && q.take(k)[j] == q[j]);
    }
    assert forall|i: int, j: int|
        0 <= i < j < q.skip(k).len() implies (#[trigger] q.skip(k)[i]).score <= (
    #[trigger] q.skip(k)[j]).score by {
        assert(q.skip(k)[i] == q[i + k] && q.skip(k)[j] == q[j + k]);
    }
}

/// The upgrade-ladder law: whatever rungs a drain hands back are applied in
/// non-decreasing threshold order; none has a threshold above the score that
/// drained it; and none can come back — each rung drained is gone from the
/// queue, and the drained part and the kept part together are exactly the
/// old queue, each rung once.
pub proof fn lemma_upgrade_ladder(orig: Seq<Upgrade>, todo: Seq<Upgrade>, rest: Seq<Upgrade>, score: u64)
    requires
        upgrades_sorted(orig),
        todo + rest == orig,
        forall|i: int| 0 <= i < todo.len() ==> (#[trigger] todo[i]).score <= score,
    ensures
        forall|i: int, j: int|
            0 <= i < j < todo.len() ==> (#[trigger] todo[i]).score <= (#[trigger] todo[j]).score,
        forall|i: int| 0 <= i < todo.len() ==> (#[trigger] todo[i]).score <= score,
        todo.len() + rest.len() == orig.len(),
        forall|i: int| 0 <= i < todo.len() ==> #[trigger] todo[i] == orig[i],
        forall|i: int| 0 <= i < rest.len() ==> #[trigger] rest[i] == orig[todo.len() + i],
{
    assert forall|i: int, j: int|
        0 <= i < j < todo.len() implies (#[trigger] todo[i]).score <= (
    #[trigger] todo[j]).score by {
        assert(todo[i] == orig[i] && todo[j] == orig[j]);
    }
    assert forall|i: int| 0 <= i < todo.len() implies #[trigger] todo[i] == orig[i] by {
        assert((todo + rest)[i] == todo[i]);
    }
    assert forall|i: int| 0 <= i < rest.len() implies #[trigger] rest[i] == orig[todo.len() + i] by {
        assert((todo + rest)[todo.len() + i] == rest[i]);
    }
}

/// Apply one drained rung: exactly one weapon in the rack changes — its
/// cooldown halves (the time left clipped to the new period), its damage
/// doubles (capped at the damage band), its magazine doubles, or it unlocks
/// with a first full magazine and joins the pickup-drop pool.
pub fn apply_upgrade(
    player: &mut Player,
    possible_pickups: &mut Vec<AmmoPickup>,
    kind: UpgradeKind,
)
    requires
        old(player).wf(),
    ensures
        final(player).wf(),
        final(player).weapons@ == old(player).weapons@.update(
            upgrade_slot_spec(kind),
            upgraded_weapon_spec(old(player).weapons@[upgrade_slot_spec(kind)], kind),
        ),
        final(possible_pickups)@ == upgrade_pool_spec(old(possible_pickups)@, kind),
        final(player).position == old(player).position,
        final(player).facing == old(player).facing,
        final(player).health == old(player).health,
        final(player).selected_weapon == old(player).selected_weapon,
        final(player).must_release_shoot == old(player).must_release_shoot,
        final(player).weapons@.len() == old(player).weapons@.len(),
{
    match kind {
        UpgradeKind::PistolFast => halve_cooldown(player, 0),
        UpgradeKind::UziUnlock => unlock(player, possible_pickups, 1, AmmoPickup::Uzi),
        UpgradeKind::PistolDouble => double_damage(player, 0),
        UpgradeKind::ShotgunUnlock => unlock(player, possible_pickups, 2, AmmoPickup::Shotgun),
        UpgradeKind::UziFast => halve_cooldown(player, 1),
        UpgradeKind::BarrelUnlock => unlock(player, possible_pickups, 3, AmmoPickup::Barrel),
        UpgradeKind::UziDoubleAmmo => double_ammo(player, 1),
        UpgradeKind::ShotgunFast => halve_cooldown(player, 2),
        UpgradeKind::ShotgunDoubleAmmo => double_ammo(player, 2),
        UpgradeKind::BarrelDoubleAmmo => double_ammo(player, 3),
        UpgradeKind::WallUnlock => unlock(player, possible_pickups, 4, AmmoPickup::Wall),
    }
}

/// Halve a weapon's cooldown period; any time still left is clipped to the
/// new period so the countdown stays well formed.
fn halve_cooldown(player: &mut Player, index: usize)
    requires
        old(player).wf(),
        index < 5,
    ensures
        final(player).wf(),
        final(player).weapons@ == old(player).weapons@.update(
            index as int,
            Weapon {
                cooldown: halved_cooldown_spec(old(player).weapons@[index as int].cooldown),
                ..old(player).weapons@[index as int]
            },
        ),
        final(player).weapons@[index as int].cooldown.total_ms == old(player).weapons@[index as int].cooldown.total_ms / 2,
        final(player).weapons@.len() == 5,
        final(player).position == old(player).position,
        final(player).facing == old(player).facing,
        final(player).health == old(player).health,
        final(player).selected_weapon == old(player).selected_weapon,
        final(player).must_release_shoot == old(player).must_release_shoot,
        forall|k: int|
            0 <= k < 5 && k != index ==> #[trigger] final(player).weapons@[k] == old(player).weapons@[k],
{
    let w = &mut player.weapons[index];
    w.cooldown.total_ms = w.cooldown.total_ms / 2;
    if w.cooldown.remaining_ms > w.cooldown.total_ms {
        w.cooldown.remaining_ms = w.cooldown.total_ms;
    }
    if w.cooldown.remaining_ms == 0 {
        w.cooldown.state = crate::cooldown::TimerState::Ready;
    }
}

/// Double a weapon's damage, capped at the damage band.
fn double_damage(player: &mut Player, index: usize)
    requires
        old(player).wf(),
        index < 5,
    ensures
        final(player).wf(),
        final(player).weapons@ == old(player).weapons@.update(
            index as int,
            Weapon {
                damage: doubled_damage_spec(old(player).weapons@[index as int].damage),
                ..old(player).weapons@[index as int]
            },
        ),
        final(player).weapons@.len() == 5,
        final(player).position == old(player).position,
        final(player).facing == old(player).facing,
        final(player).health == old(player).health,
        final(player).selected_weapon == old(player).selected_weapon,
        final(player).must_release_shoot == old(player).must_release_shoot,
        forall|k: int|
            0 <= k < 5 && k != index ==> #[trigger] final(player).weapons@[k] == old(player).weapons@[k],
{
    let w = &mut player.weapons[index];
    if w.damage > DMG_LIMIT / 2 {
        w.damage = DMG_LIMIT;
    } else {
        w.damage = w.damage * 2;
    }
}

/// Double a weapon's magazine capacity.
fn double_ammo(player: &mut Player, index: usize)
    requires
        old(player).wf(),
        index < 5,
    ensures
        final(player).wf(),
        final(player).weapons@ == old(player).weapons@.update(
            index as int,
            Weapon {
                ammo: old(player).weapons@[index as int].ammo.scale_magazine_spec(2000),
                ..old(player).weapons@[index as int]
            },
        ),
        final(player).weapons@.len() == 5,
        final(player).position == old(player).position,
        final(player).facing == old(player).facing,
        final(player).health == old(player).health,
        final(player).selected_weapon == old(player).selected_weapon,
        final(player).must_release_shoot == old(player).must_release_shoot,
        forall|k: int|
            0 <= k < 5 && k != index ==> #[trigger] final(player).weapons@[k] == old(player).weapons@[k],
{
    let w = &mut player.weapons[index];
    w.ammo.scale_magazine(2000);
}

/// Unlock a weapon: grant a first full magazine and register its ammo kind
/// in the pickup-drop pool.
fn unlock(player: &mut Player, possible_pickups: &mut Vec<AmmoPickup>, index: usize, pickup: AmmoPickup)
    requires
        old(player).wf(),
        index < 5,
    ensures
        final(player).wf(),
        final(player).weapons@ == old(player).weapons@.update(
            index as int,
            Weapon {
                ammo: old(player).weapons@[index as int].ammo.reload_spec(),
                ..old(player).weapons@[index as int]
            },
        ),
        final(possible_pickups)@ == old(possible_pickups)@.push(pickup),
        final(player).weapons@.len() == 5,
        final(player).position == old(player).position,
        final(player).facing == old(player).facing,
        final(player).health == old(player).health,
        final(player).selected_weapon == old(player).selected_weapon,
        final(player).must_release_shoot == old(player).must_release_shoot,
        forall|k: int|
            0 <= k < 5 && k != index ==> #[trigger] final(player).weapons@[k] == old(player).weapons@[k],
{
    let w = &mut player.weapons[index];
    w.ammo.reload();
    possible_pickups.push(pickup);
}

} // verus!
