use std::collections::VecDeque;

use vstd::prelude::*;

use crate::alerts::{push_alert, Alert, ALERT_QUEUE_MAX};
use crate::cooldown::Cooldown;
use crate::entity::{Pickup, PICKUP_RADIUS};
use crate::geom::Vec2;
use crate::player::{AmmoPickup, Player};
use crate::rng::rand_range_usize;

verus! {

/// Spacing of the fixed pickup grid, in milli-units.
pub const PICKUP_SPACING: i64 = 5000;

/// The fixed pickup grid is this many slots on each axis.
pub const PICKUP_GRID: usize = 4;

/// The grid slot at column `x`, row `y`.
pub open spec fn pickup_location_spec(x: int, y: int) -> Vec2 {
    Vec2 {
        x: (-20_000 + x * 5000 + 12_500) as i64,
        y: (-20_000 + y * 5000 + 12_500) as i64,
    }
}

/// The fixed grid of candidate pickup positions, a centered four-by-four
/// lattice at five-unit spacing, column-major.
pub fn pickup_locations() -> (out: Vec<Vec2>)
    ensures
        out@.len() == PICKUP_GRID * PICKUP_GRID,
        forall|x: int, y: int|
            0 <= x < PICKUP_GRID && 0 <= y < PICKUP_GRID ==> #[trigger] out@[x * PICKUP_GRID + y]
                == pickup_location_spec(x, y),
        forall|i: int| 0 <= i < out@.len() ==> (#[trigger] out@[i]).wf(),
{
    let mut out: Vec<Vec2> = Vec::new();
    let mut x: usize = 0;
    while x < PICKUP_GRID
        invariant
            0 <= x <= PICKUP_GRID,
            out@.len() == x * PICKUP_GRID,
            forall|cx: int, cy: int|
                0 <= cx < x && 0 <= cy < PICKUP_GRID ==> #[trigger] out@[cx * PICKUP_GRID + cy]
                    == pickup_location_spec(cx, cy),
            forall|i: int| 0 <= i < out@.len() ==> (#[trigger] out@[i]).wf(),
        decreases PICKUP_GRID - x,
    {
        let mut y: usize = 0;
        while y < PICKUP_GRID
            invariant
                0 <= x < PICKUP_GRID,
                0 <= y <= PICKUP_GRID,
                out@.len() == x * PICKUP_GRID + y,
                forall|cx: int, cy: int|
                    0 <= cx < x && 0 <= cy < PICKUP_GRID ==> #[trigger] out@[cx * PICKUP_GRID + cy]
                        == pickup_location_spec(cx, cy),
                forall|cy: int|
                    0 <= cy < y ==> #[trigger] out@[x as int * PICKUP_GRID + cy]
                        == pickup_location_spec(x as int, cy),
                forall|i: int| 0 <= i < out@.len() ==> (#[trigger] out@[i]).wf(),
            decreases PICKUP_GRID - y,
        {
            let px: i64 = -20_000 + (x as i64) * 5000 + 12_500;
            let py: i64 = -20_000 + (y as i64) * 5000 + 12_500;
            out.push(Vec2 { x: px, y: py });
            y = y + 1;
        }
        x = x + 1;
    }
    out
}

/// Whether a pickup at `pos` touches the player: the player's center lies
/// strictly inside the pickup's own (half-size) radius.
pub open spec fn pickup_touches_spec(pos: Vec2, player_pos: Vec2) -> bool {
    pos.dist_milli_spec(player_pos) < PICKUP_RADIUS
}

/// Resolve pickups against the player: every crate the player stands on is
/// consumed; each consumed crate grants a reload of one randomly drawn
/// unlocked weapon (when any is unlocked) and posts an alert — the alert
/// queue grows by one bounded push per consumed crate. The crates not
/// touched survive unchanged, in order. The player's position, facing,
/// health and hand never change; weapon kinds, damage and cooldowns never
/// change; each weapon's ammo is either untouched or reloaded to capacity,
/// so no magazine loses rounds.
pub fn check_pickups(
    pickups: &mut Vec<Pickup>,
    player: &mut Player,
    possible_pickups: &Vec<AmmoPickup>,
    messages: &mut VecDeque<Alert>,
)
    requires
        forall|i: int| 0 <= i < old(pickups)@.len() ==> (#[trigger] old(pickups)@[i]).wf(),
        old(player).wf(),
        old(messages)@.len() <= ALERT_QUEUE_MAX,
        forall|i: int| 0 <= i < old(messages)@.len() ==> (#[trigger] old(messages)@[i]).wf(),
    ensures
        final(pickups)@ == old(pickups)@.filter(
            |p: Pickup| !pickup_touches_spec(p.position, old(player).position),
        ),
        forall|i: int| 0 <= i < final(pickups)@.len() ==> (#[trigger] final(pickups)@[i]).wf(),
        final(player).wf(),
        final(player).position == old(player).position,
        final(player).facing == old(player).facing,
        final(player).health == old(player).health,
        final(player).selected_weapon == old(player).selected_weapon,
        final(player).weapons@.len() == 5,
        forall|k: int|
            0 <= k < 5 ==> (#[trigger] final(player).weapons@[k]).kind == old(player).weapons@[k].kind && final(player).weapons@[k].damage == old(player).weapons@[k].damage
                && final(player).weapons@[k].cooldown == old(player).weapons@[k].cooldown,
        forall|k: int|
            0 <= k < 5 ==> (#[trigger] final(player).weapons@[k]).ammo == old(player).weapons@[k].ammo || final(player).weapons@[k].ammo == old(player).weapons@[k].ammo.reload_spec(),
        possible_pickups@.len() == 0 ==> final(player).weapons@ == old(player).weapons@ && final(messages)@ == old(messages)@ && final(player).must_release_shoot == old(player).must_release_shoot,
        possible_pickups@.len() > 0 ==> final(messages)@.len() == min_alerts_spec(
            old(messages)@.len() as int + (old(pickups)@.len() - final(pickups)@.len()),
        ),
        final(messages)@.len() <= ALERT_QUEUE_MAX,
        forall|i: int| 0 <= i < final(messages)@.len() ==> (#[trigger] final(messages)@[i]).wf(),
{
    let ghost orig = pickups@;
    let ghost ppos = player.position;
    let ghost keep = |p: Pickup| !pickup_touches_spec(p.position, ppos);
    let mut checked: Vec<Pickup> = Vec::new();
    let n = pickups.len();
    let mut i: usize = 0;
    while i < n
        invariant
            n == orig.len(),
            pickups@ == orig,
            0 <= i <= n,
            checked@ == orig.take(i as int).filter(keep),
            keep == (|p: Pickup| !pickup_touches_spec(p.position, ppos)),
            ppos == old(player).position,
            forall|k: int| 0 <= k < orig.len() ==> (#[trigger] orig[k]).wf(),
            forall|k: int| 0 <= k < checked@.len() ==> (#[trigger] checked@[k]).wf(),
            player.wf(),
            player.position == old(player).position,
            player.facing == old(player).facing,
            player.health == old(player).health,
            player.selected_weapon == old(player).selected_weapon,
            player.weapons@.len() == 5,
            forall|k: int|
                0 <= k < 5 ==> (#[trigger] player.weapons@[k]).kind == old(player).weapons@[k].kind
                    && player.weapons@[k].damage == old(player).weapons@[k].damage
                    && player.weapons@[k].cooldown == old(player).weapons@[k].cooldown,
            forall|k: int|
                0 <= k < 5 ==> (#[trigger] player.weapons@[k]).ammo == old(player).weapons@[k].ammo || player.weapons@[k].ammo == old(player).weapons@[k].ammo.reload_spec(),
            possible_pickups@.len() == 0 ==> player.weapons@ == old(player).weapons@ && messages@ == old(messages)@ && player.must_release_shoot == old(player).must_release_shoot,
            possible_pickups@.len() > 0 ==> messages@.len() == min_alerts_spec(
                old(messages)@.len() as int + (i - checked@.len()),
            ),
            checked@.len() <= i,
            messages@.len() <= ALERT_QUEUE_MAX,
            forall|k: int| 0 <= k < messages@.len() ==> (#[trigger] messages@[k]).wf(),
        decreases n - i,
    {
        let p: Pickup = pickups[i];
        let touches = {
            let b = p.bounds();
            let pb = player.bounds();
            b.collides_with(&pb)
        };
        proof {
            assert(orig.take(i as int + 1) =~= orig.take(i as int) + seq![orig[i as int]]);
            Seq::<Pickup>::filter_distributes_over_add(
                orig.take(i as int),
                seq![orig[i as int]],
                keep,
            );
            crate::combat::lemma_filter_singleton(orig[i as int], keep);
            assert(p.bounds_spec().collides_spec(player.bounds_spec()) == pickup_touches_spec(
                p.position,
                ppos,
            ));
        }
        if touches {
            if possible_pickups.len() > 0 {
                let r = rand_range_usize(0, possible_pickups.len());
                let granted: AmmoPickup = possible_pickups[r];
                player.pickedup(granted);
                let text = granted.label();
                push_alert(messages, Alert::new(text.to_string()));
            }
        } else {
            checked.push(p);
        }
        proof {
            assert(checked@ =~= orig.take(i as int + 1).filter(keep));
        }
        i = i + 1;
    }
    proof {
        assert(orig.take(n as int) =~= orig);
    }
    *pickups = checked;
}

/// The alert-queue length after a number of pushes into a bounded queue.
pub open spec fn min_alerts_spec(n: int) -> int {
    if n > ALERT_QUEUE_MAX {
        ALERT_QUEUE_MAX as int
    } else {
        n
    }
}


/// One frame of the respawn timer. While it runs, nothing else happens.
/// When it elapses it rearms, one grid slot is drawn at random, and —
/// unless a crate already sits exactly there — a crate appears on it: on an
/// elapsing frame, either exactly one crate was appended on a grid slot
/// that held none, or the pool is unchanged because the drawn slot (some
/// grid slot) already held a crate.
pub fn do_pickup_respawn(pickup_respawn: &mut Cooldown, pickups: &mut Vec<Pickup>, delta_ms: u64)
    requires
        old(pickup_respawn).wf(),
        forall|i: int| 0 <= i < old(pickups)@.len() ==> (#[trigger] old(pickups)@[i]).wf(),
    ensures
        final(pickup_respawn).wf(),
        final(pickup_respawn).total_ms == old(pickup_respawn).total_ms,
        *final(pickup_respawn) == (if delta_ms >= old(pickup_respawn).remaining_ms {
            old(pickup_respawn).subtracted_spec(delta_ms).reset_spec()
        } else {
            old(pickup_respawn).subtracted_spec(delta_ms)
        }),
        delta_ms < old(pickup_respawn).remaining_ms ==> final(pickups)@ == old(pickups)@,
        final(pickups)@ == old(pickups)@ || (final(pickups)@.len() == old(pickups)@.len() + 1
            && final(pickups)@.take(old(pickups)@.len() as int) == old(pickups)@ && (exists|x: int, y: int|
            0 <= x < PICKUP_GRID && 0 <= y < PICKUP_GRID && final(pickups)@.last().position
                == pickup_location_spec(x, y)) && (forall|i: int|
            0 <= i < old(pickups)@.len() ==> (#[trigger] old(pickups)@[i]).position != final(pickups)@.last().position)),
        delta_ms >= old(pickup_respawn).remaining_ms && final(pickups)@ == old(pickups)@
            ==> exists|i: int, x: int, y: int|
            #![trigger old(pickups)@[i], pickup_location_spec(x, y)]
            0 <= i < old(pickups)@.len() && 0 <= x < PICKUP_GRID && 0 <= y < PICKUP_GRID && old(pickups)@[i].position == pickup_location_spec(x, y),
        forall|i: int| 0 <= i < final(pickups)@.len() ==> (#[trigger] final(pickups)@[i]).wf(),
{
    pickup_respawn.subtract(delta_ms);
    if pickup_respawn.is_ready() {
        pickup_respawn.reset();
        let positions = pickup_locations();
        let r = rand_range_usize(0, positions.len());
        let position = positions[r];
        let ghost gx = r as int / PICKUP_GRID as int;
        let ghost gy = r as int % PICKUP_GRID as int;
        proof {
            assert(0 <= gx < PICKUP_GRID && 0 <= gy < PICKUP_GRID && gx * PICKUP_GRID + gy == r)
                by (nonlinear_arith)
                requires
                    0 <= r < PICKUP_GRID * PICKUP_GRID,
                    gx == r as int / PICKUP_GRID as int,
                    gy == r as int % PICKUP_GRID as int,
                    PICKUP_GRID == 4,
            ;
            assert(positions@[gx * PICKUP_GRID + gy] == pickup_location_spec(gx, gy));
        }
        let n = pickups.len();
        let mut i: usize = 0;
        while i < n
            invariant
                n == pickups@.len(),
                0 <= i <= n,
                pickups@ == old(pickups)@,
                pickup_respawn.wf(),
                pickup_respawn.total_ms == old(pickup_respawn).total_ms,
                *pickup_respawn == old(pickup_respawn).subtracted_spec(delta_ms).reset_spec(),
                delta_ms >= old(pickup_respawn).remaining_ms,
                0 <= gx < PICKUP_GRID,
                0 <= gy < PICKUP_GRID,
                position == pickup_location_spec(gx, gy),
                forall|k: int| 0 <= k < i ==> (#[trigger] pickups@[k]).position != position,
                forall|k: int| 0 <= k < pickups@.len() ==> (#[trigger] pickups@[k]).wf(),
                position.wf(),
            decreases n - i,
        {
            let same = {
                let pk = &pickups[i];
                pk.position.x == position.x && pk.position.y == position.y
            };
            if same {
                proof {
                    assert(0 <= i < old(pickups)@.len() && 0 <= gx < PICKUP_GRID && 0 <= gy
                        < PICKUP_GRID && old(pickups)@[i as int].position == pickup_location_spec(
                        gx,
                        gy,
                    ));
                }
                return ;
            }
            i = i + 1;
        }
        pickups.push(Pickup { position });
        proof {
            assert(pickups@.take(old(pickups)@.len() as int) =~= old(pickups)@);
        }
    }
}

} // verus!
