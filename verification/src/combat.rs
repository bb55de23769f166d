use vstd::prelude::*;

use crate::entity::{Bullet, BoundingCircle, Target, DMG_LIMIT, RADIUS_LIMIT};
use crate::geom::Vec2;
use vstd::multiset::Multiset;

verus! {

broadcast use {vstd::multiset::group_multiset_axioms, vstd::seq_lib::group_to_multiset_ensures};

/// The bullet-hit window of a target: the bullet sits within half the
/// target's bounding radius of its center.
pub open spec fn was_hit_target<H: Target>(t: H, b: Bullet) -> bool {
    t.t_center().dist_milli_spec(b.position) < t.t_radius() / 2
}

/// Where a knocked-back target lands: pushed from the player's position
/// through its own center by half its bounding radius.
pub open spec fn knock_pos_spec(center: Vec2, radius: int, player_pos: Vec2) -> Vec2 {
    center.add_spec(center.sub_spec(player_pos).normalize_spec().scale_spec(radius / 2))
}

fn knock_pos(center: Vec2, radius: i64, player_pos: Vec2) -> (p: Vec2)
    requires
        center.wf(),
        player_pos.wf(),
        0 <= radius <= RADIUS_LIMIT,
    ensures
        p == knock_pos_spec(center, radius as int, player_pos),
        p.wf(),
{
    let dir = center.sub(&player_pos).normalize();
    let push = dir.scale(radius / 2);
    center.add(&push)
}

/// What one bullet does to one target: damage, then — when a player position
/// is supplied — knockback away from the player.
pub open spec fn hit_outcome<H: Target>(t: H, b: Bullet, player_pos: Option<Vec2>) -> H {
    let t2 = t.damaged(b.damage as int);
    match player_pos {
        None => t2,
        Some(pp) => t2.moved_to(knock_pos_spec(t.t_center(), t.t_radius(), pp)),
    }
}

/// The multiset of bullets a hit assignment consumes.
pub open spec fn consumed_mset(hits: Seq<Option<Bullet>>) -> Multiset<Bullet>
    decreases hits.len(),
{
    if hits.len() == 0 {
        Multiset::empty()
    } else {
        let rest = consumed_mset(hits.drop_last());
        match hits.last() {
            Option::None => rest,
            Option::Some(b) => rest.insert(b),
        }
    }
}

/// The bullet a target absorbs from a pool: scanning from the newest
/// (highest index) down, the index of the first bullet inside the hit
/// window; -1 when none is.
pub open spec fn find_hit_spec<H: Target>(t: H, bullets: Seq<Bullet>) -> int
    decreases bullets.len(),
{
    if bullets.len() == 0 {
        -1
    } else if was_hit_target(t, bullets.last()) {
        bullets.len() - 1
    } else {
        find_hit_spec(t, bullets.drop_last())
    }
}

/// A pool with no bullet in the window scans to nothing.
proof fn lemma_find_hit_none<H: Target>(t: H, bullets: Seq<Bullet>)
    requires
        forall|k: int| 0 <= k < bullets.len() ==> !was_hit_target(t, #[trigger] bullets[k]),
    ensures
        find_hit_spec(t, bullets) == -1,
    decreases bullets.len(),
{
    if bullets.len() > 0 {
        lemma_find_hit_none(t, bullets.drop_last());
    }
}

/// A hit at `j` with nothing hit above it is what the scan finds.
proof fn lemma_find_hit_at<H: Target>(t: H, bullets: Seq<Bullet>, j: int)
    requires
        0 <= j < bullets.len(),
        was_hit_target(t, bullets[j]),
        forall|k: int| j < k < bullets.len() ==> !was_hit_target(t, #[trigger] bullets[k]),
    ensures
        find_hit_spec(t, bullets) == j,
    decreases bullets.len(),
{
    if j < bullets.len() - 1 {
        lemma_find_hit_at(t, bullets.drop_last(), j);
    }
}

/// One resolution pass, exactly: targets in order, each absorbing the
/// newest still-unconsumed bullet inside its hit window, if any, with the
/// hit outcome applied and the bullet removed before the next target scans.
pub open spec fn bullet_hits_fold<H: Target>(
    targets: Seq<H>,
    bullets: Seq<Bullet>,
    player_pos: Option<Vec2>,
) -> (Seq<H>, Seq<Bullet>)
    decreases targets.len(),
{
    if targets.len() == 0 {
        (targets, bullets)
    } else {
        let t = targets[0];
        let j = find_hit_spec(t, bullets);
        let t2 = if j >= 0 {
            hit_outcome(t, bullets[j], player_pos)
        } else {
            t
        };
        let bullets2 = if j >= 0 {
            bullets.remove(j)
        } else {
            bullets
        };
        let rest = bullet_hits_fold(targets.skip(1), bullets2, player_pos);
        (seq![t2] + rest.0, rest.1)
    }
}

/// How one resolution pass relates the pools before and after: `hits` names,
/// for each target in order, the bullet it absorbed, if any. A target with no
/// bullet is unchanged; a target with one took exactly that bullet's damage
/// (and knockback); and the bullet pool lost exactly the consumed bullets,
/// counted with multiplicity — so a bullet instance damages at most one
/// target, and a target absorbs at most one bullet.
pub open spec fn hits_rel<H: Target>(
    old_targets: Seq<H>,
    old_bullets: Seq<Bullet>,
    new_targets: Seq<H>,
    new_bullets: Seq<Bullet>,
    player_pos: Option<Vec2>,
    hits: Seq<Option<Bullet>>,
) -> bool {
    &&& hits.len() == old_targets.len()
    &&& new_targets.len() == old_targets.len()
    &&& (forall|i: int|
        0 <= i < old_targets.len() ==> match #[trigger] hits[i] {
            Option::None => new_targets[i] == old_targets[i],
            Option::Some(b) => was_hit_target(old_targets[i], b) && new_targets[i]
                == hit_outcome(old_targets[i], b, player_pos),
        })
    &&& consumed_mset(hits).subset_of(old_bullets.to_multiset())
    &&& new_bullets.to_multiset() == old_bullets.to_multiset().sub(consumed_mset(hits))
}

/// Resolve bullets against a pool of targets: each target scans the bullets
/// still in flight (newest first) and absorbs the first one inside its hit
/// window; that bullet leaves the pool, so later targets only see bullets not
/// yet consumed. With a player position supplied, a struck target is also
/// knocked back. The postcondition exhibits the hit assignment: no bullet
/// damages two targets and no target absorbs two bullets in one pass.
pub fn do_bullet_hits<H: Target>(
    targets: &mut Vec<H>,
    bullets: &mut Vec<Bullet>,
    player_position: Option<Vec2>,
)
    requires
        forall|i: int| 0 <= i < old(targets)@.len() ==> (#[trigger] old(targets)@[i]).t_wf(),
        forall|j: int| 0 <= j < old(bullets)@.len() ==> (#[trigger] old(bullets)@[j]).wf(),
        player_position matches Some(pp) ==> pp.wf(),
    ensures
        final(targets)@ == bullet_hits_fold(old(targets)@, old(bullets)@, player_position).0,
        final(bullets)@ == bullet_hits_fold(old(targets)@, old(bullets)@, player_position).1,
        exists|hits: Seq<Option<Bullet>>|
            hits_rel(
                old(targets)@,
                old(bullets)@,
                final(targets)@,
                final(bullets)@,
                player_position,
                hits,
            ),
        forall|i: int| 0 <= i < final(targets)@.len() ==> (#[trigger] final(targets)@[i]).t_wf(),
        forall|j: int| 0 <= j < final(bullets)@.len() ==> (#[trigger] final(bullets)@[j]).wf(),
        forall|j: int|
            0 <= j < final(bullets)@.len() ==> old(bullets)@.contains(#[trigger] final(bullets)@[j]),
        final(bullets)@.len() <= old(bullets)@.len(),
{
    let ghost orig_targets = targets@;
    let ghost orig_bullets = bullets@;
    let ghost pp = player_position;
    let mut hits: Ghost<Seq<Option<Bullet>>> = Ghost(Seq::empty());
    let n = targets.len();
    let mut i: usize = 0;
    proof {
        assert(orig_targets.skip(0) =~= orig_targets);
        assert(targets@.take(0) =~= Seq::<H>::empty());
        assert(targets@.take(0) + bullet_hits_fold(orig_targets.skip(0), bullets@, pp).0
            =~= bullet_hits_fold(orig_targets, orig_bullets, pp).0);
    }
    while i < n
        invariant
            bullet_hits_fold(orig_targets, orig_bullets, pp).0 == targets@.take(i as int)
                + bullet_hits_fold(orig_targets.skip(i as int), bullets@, pp).0,
            bullet_hits_fold(orig_targets, orig_bullets, pp).1 == bullet_hits_fold(
                orig_targets.skip(i as int),
                bullets@,
                pp,
            ).1,
            n == orig_targets.len(),
            targets@.len() == n,
            0 <= i <= n,
            hits@.len() == i,
            forall|k: int| i <= k < n ==> targets@[k] == orig_targets[k],
            forall|k: int|
                0 <= k < i ==> match #[trigger] hits@[k] {
                    Option::None => targets@[k] == orig_targets[k],
                    Option::Some(b) => was_hit_target(orig_targets[k], b) && targets@[k]
                        == hit_outcome(orig_targets[k], b, pp),
                },
            consumed_mset(hits@).subset_of(orig_bullets.to_multiset()),
            bullets@.to_multiset() == orig_bullets.to_multiset().sub(consumed_mset(hits@)),
            bullets@.len() <= orig_bullets.len(),
            forall|k: int| 0 <= k < targets@.len() ==> (#[trigger] targets@[k]).t_wf(),
            forall|k: int| 0 <= k < bullets@.len() ==> (#[trigger] bullets@[k]).wf(),
            pp matches Some(p) ==> p.wf(),
            pp == player_position,
        decreases n - i,
    {
        let bounds = {
            let t = &targets[i];
            t.bounds()
        };
        let mut j = bullets.len();
        let mut consumed: Option<Bullet> = None;
        while j > 0
            invariant_except_break
                consumed is None,
                forall|k: int|
                    j <= k < bullets@.len() ==> !was_hit_target(
                        targets@[i as int],
                        #[trigger] bullets@[k],
                    ),
            invariant
                j <= bullets@.len(),
                i < targets@.len(),
                bounds.center == targets@[i as int].t_center(),
                bounds.radius as int == targets@[i as int].t_radius(),
                bounds.wf(),
                forall|k: int| 0 <= k < bullets@.len() ==> (#[trigger] bullets@[k]).wf(),
            ensures
                match consumed {
                    Option::None => forall|k: int|
                        0 <= k < bullets@.len() ==> !was_hit_target(
                            targets@[i as int],
                            #[trigger] bullets@[k],
                        ),
                    Option::Some(b) => j < bullets@.len() && bullets@[j as int] == b
                        && was_hit_target(targets@[i as int], b) && (forall|k: int|
                        j < k < bullets@.len() ==> !was_hit_target(
                            targets@[i as int],
                            #[trigger] bullets@[k],
                        )),
                },
            decreases j,
        {
            j = j - 1;
            let hit = {
                let b = &bullets[j];
                bounds.was_hit_point(&b.position)
            };
            if hit {
                consumed = Some(bullets[j]);
                proof {
                    assert(was_hit_target(targets@[i as int], bullets@[j as int]));
                }
                break;
            }
        }
        match consumed {
            None => {
                proof {
                    let newhits = hits@.push(Option::<Bullet>::None);
                    assert(newhits.drop_last() =~= hits@);
                    assert(consumed_mset(newhits) =~= consumed_mset(hits@));
                    // fold step: this target scans to nothing and stays
                    let ii = i as int;
                    lemma_find_hit_none(targets@[ii], bullets@);
                    assert(orig_targets.skip(ii)[0] == orig_targets[ii]);
                    assert(orig_targets.skip(ii).skip(1) =~= orig_targets.skip(ii + 1));
                    assert(targets@[ii] == orig_targets[ii]);
                    let rest = bullet_hits_fold(orig_targets.skip(ii + 1), bullets@, pp);
                    assert(bullet_hits_fold(orig_targets.skip(ii), bullets@, pp).0 =~= seq![
                        targets@[ii],
                    ] + rest.0);
                    assert(targets@.take(ii) + (seq![targets@[ii]] + rest.0) =~= targets@.take(
                        ii + 1,
                    ) + rest.0);
                }
                hits = Ghost(hits@.push(Option::None));
            },
            Some(b) => {
                let ghost old_t = targets@[i as int];
                let ghost pre_bullets = bullets@;
                let mut t: H = targets[i];
                t.apply_damage(b.damage);
                if let Some(ppos) = player_position {
                    let np = knock_pos(bounds.center, bounds.radius, ppos);
                    t.move_to(np);
                }
                proof {
                    assert(t == hit_outcome(old_t, b, pp));
                }
                let ghost pre_targets = targets@;
                let slot = &mut targets[i];
                *slot = t;
                bullets.remove(j);
                proof {
                    // fold step: this target absorbs the newest in-window bullet
                    let ii = i as int;
                    lemma_find_hit_at(pre_targets[ii], pre_bullets, j as int);
                    assert(orig_targets.skip(ii)[0] == orig_targets[ii]);
                    assert(orig_targets.skip(ii).skip(1) =~= orig_targets.skip(ii + 1));
                    assert(pre_targets[ii] == orig_targets[ii]);
                    let rest = bullet_hits_fold(orig_targets.skip(ii + 1), bullets@, pp);
                    assert(bullet_hits_fold(orig_targets.skip(ii), pre_bullets, pp).0 =~= seq![
                        t,
                    ] + rest.0);
                    assert(bullet_hits_fold(orig_targets.skip(ii), pre_bullets, pp).1
                        == rest.1);
                    assert(pre_targets.take(ii) + (seq![t] + rest.0) =~= targets@.take(ii + 1)
                        + rest.0);
                }
                proof {
                    // the vec removal is one multiset removal
                    assert(bullets@.to_multiset() =~= pre_bullets.to_multiset().remove(b));
                    // the consumed bullet was still available in the pool
                    assert(pre_bullets.to_multiset().count(b) > 0);
                    let newhits = hits@.push(Option::Some(b));
                    assert(newhits.drop_last() =~= hits@);
                    assert(consumed_mset(newhits) =~= consumed_mset(hits@).insert(b));
                    // counts: available count of b exceeds what was consumed so far
                    assert(pre_bullets.to_multiset().count(b) == orig_bullets.to_multiset().count(
                        b,
                    ) - consumed_mset(hits@).count(b));
                    assert(consumed_mset(newhits).subset_of(orig_bullets.to_multiset()));
                    assert(bullets@.to_multiset() =~= orig_bullets.to_multiset().sub(
                        consumed_mset(newhits),
                    ));
                }
                hits = Ghost(hits@.push(Option::Some(b)));
            },
        }
        i = i + 1;
    }
    proof {
        assert(hits_rel(orig_targets, orig_bullets, targets@, bullets@, player_position, hits@));
        assert forall|j: int|
            0 <= j < bullets@.len() implies orig_bullets.contains(#[trigger] bullets@[j]) by {
            assert(bullets@.contains(bullets@[j]));
            assert(bullets@.to_multiset().count(bullets@[j]) > 0);
            assert(orig_bullets.to_multiset().count(bullets@[j]) > 0);
        }
    }
}

/// Split a pool into the survivors (kept, in order) and the dead (returned,
/// in order): exactly the entities with no health left come back, exactly
/// those with health left stay, each entity bit-for-bit unchanged.
pub fn burry_dead<D: Target>(things: &mut Vec<D>) -> (dead: Vec<D>)
    requires
        forall|i: int| 0 <= i < old(things)@.len() ==> (#[trigger] old(things)@[i]).t_wf(),
    ensures
        final(things)@ == old(things)@.filter(|d: D| d.t_health() > 0),
        dead@ == old(things)@.filter(|d: D| d.t_health() <= 0),
        forall|i: int| 0 <= i < final(things)@.len() ==> (#[trigger] final(things)@[i]).t_wf(),
        forall|i: int| 0 <= i < dead@.len() ==> (#[trigger] dead@[i]).t_wf(),
{
    let ghost orig = things@;
    let ghost alive_pred = |d: D| d.t_health() > 0;
    let ghost dead_pred = |d: D| d.t_health() <= 0;
    let mut alive: Vec<D> = Vec::new();
    let mut dead: Vec<D> = Vec::new();
    let n = things.len();
    let mut i: usize = 0;
    while i < n
        invariant
            n == orig.len(),
            things@ == orig,
            0 <= i <= n,
            alive@ == orig.take(i as int).filter(alive_pred),
            dead@ == orig.take(i as int).filter(dead_pred),
            forall|k: int| 0 <= k < orig.len() ==> (#[trigger] orig[k]).t_wf(),
            forall|k: int| 0 <= k < alive@.len() ==> (#[trigger] alive@[k]).t_wf(),
            forall|k: int| 0 <= k < dead@.len() ==> (#[trigger] dead@[k]).t_wf(),
            alive_pred == (|d: D| d.t_health() > 0),
            dead_pred == (|d: D| d.t_health() <= 0),
        decreases n - i,
    {
        let d: D = things[i];
        let h = d.health();
        proof {
            lemma_take_one_more(orig, i as int);
            Seq::<D>::filter_distributes_over_add(
                orig.take(i as int),
                seq![orig[i as int]],
                alive_pred,
            );
            Seq::<D>::filter_distributes_over_add(
                orig.take(i as int),
                seq![orig[i as int]],
                dead_pred,
            );
            lemma_filter_singleton(orig[i as int], alive_pred);
            lemma_filter_singleton(orig[i as int], dead_pred);
        }
        if h > 0 {
            alive.push(d);
            proof {
                assert(alive@ =~= orig.take(i as int + 1).filter(alive_pred));
                assert(dead@ =~= orig.take(i as int + 1).filter(dead_pred));
            }
        } else {
            dead.push(d);
            proof {
                assert(alive@ =~= orig.take(i as int + 1).filter(alive_pred));
                assert(dead@ =~= orig.take(i as int + 1).filter(dead_pred));
            }
        }
        i = i + 1;
    }
    proof {
        assert(orig.take(n as int) =~= orig);
    }
    *things = alive;
    dead
}

/// `take(i + 1)` is `take(i)` with the i-th element appended.
proof fn lemma_take_one_more<A>(s: Seq<A>, i: int)
    requires
        0 <= i < s.len(),
    ensures
        s.take(i + 1) =~= s.take(i) + seq![s[i]],
{
}

/// Filtering a one-element sequence keeps or drops that element.
pub(crate) proof fn lemma_filter_singleton<A>(x: A, p: spec_fn(A) -> bool)
    ensures
        seq![x].filter(p) == if p(x) {
            seq![x]
        } else {
            Seq::<A>::empty()
        },
{
    reveal_with_fuel(Seq::filter, 2);
    assert(seq![x].drop_last() =~= Seq::<A>::empty());
    assert(seq![x].last() == x);
}

/// The blast parameters of a detonating barrel: damage in hundredths,
/// radius in milli-units.
pub const BLAST_DAMAGE: i64 = 2500;

pub const BLAST_RADIUS: i64 = 1500;

/// Damage a blast deals at a given distance: the base damage scaled by the
/// inverse of the distance in units. A target at the very center (distance
/// zero) is treated as standing one milli-unit away.
pub open spec fn blast_damage_spec(damage: int, dist: int) -> int {
    let d = if dist <= 0 { 1 } else { dist };
    damage * 1000 / d
}

pub fn blast_damage(damage: i64, dist: u64) -> (r: i64)
    requires
        0 <= damage <= 1_000_000_000,
        dist <= 6_000_000_000,
    ensures
        r == blast_damage_spec(damage as int, dist as int),
        0 <= r <= DMG_LIMIT,
{
    let d: i64 = if dist == 0 { 1 } else { dist as i64 };
    proof {
        assert(0 <= damage * 1000 <= 1_000_000_000_000) by (nonlinear_arith)
            requires
                0 <= damage <= 1_000_000_000,
        ;
        assert(0 <= damage * 1000 / (d as int) <= damage * 1000) by (nonlinear_arith)
            requires
                0 < d,
                0 <= damage * 1000,
        ;
    }
    (damage * 1000) / d
}

/// How far a blast shoves a target: the blast-to-target displacement scaled
/// by the same inverse-distance factor, added onto the target's position.
pub open spec fn blast_push_spec(center: Vec2, target_center: Vec2) -> Vec2 {
    let dir = target_center.sub_spec(center);
    let dist = dir.length_spec();
    let d = if dist <= 0 { 1 } else { dist };
    target_center.add_spec(dir.scale_spec(1_000_000int / d))
}

/// The whole effect of one blast on one target.
pub open spec fn blast_outcome<T: Target>(
    t: T,
    center: Vec2,
    damage: int,
    knockback: bool,
) -> T {
    let dist = t.t_center().sub_spec(center).length_spec();
    let t2 = t.damaged(blast_damage_spec(damage, dist));
    if knockback {
        t2.moved_to(blast_push_spec(center, t.t_center()))
    } else {
        t2
    }
}

/// Apply one blast to one target: damage scaled inversely with distance,
/// then, if asked, a shove away from the blast center by the same factor.
pub fn explode_on<T: Target>(t: &mut T, center: Vec2, damage: i64, knockback: bool)
    requires
        old(t).t_wf(),
        center.wf(),
        0 <= damage <= 1_000_000_000,
    ensures
        *final(t) == blast_outcome(*old(t), center, damage as int, knockback),
        final(t).t_wf(),
        final(t).t_radius() == old(t).t_radius(),
{
    let ghost orig = *t;
    let c = t.bounds();
    let dir = c.center.sub(&center);
    let dist = dir.length();
    let dmg = blast_damage(damage, dist);
    t.apply_damage(dmg);
    if knockback {
        let d: i64 = if dist == 0 { 1 } else { dist as i64 };
        let push = dir.scale(1_000_000 / d);
        let np = c.center.add(&push);
        t.move_to(np);
        proof {
            assert(1_000_000int / (d as int) == 1_000_000int / (if dir.length_spec() <= 0 { 1int } else { dir.length_spec() }));
        }
    }
}

/// A whole pool after one blast: every target whose center lies inside the
/// blast radius shows the blast outcome, every other target is untouched.
pub open spec fn blasted_targets_spec<T: Target>(
    s: Seq<T>,
    center: Vec2,
    damage: int,
    radius: int,
    knockback: bool,
) -> Seq<T> {
    Seq::new(
        s.len(),
        |i: int|
            if center.dist_milli_spec(s[i].t_center()) < radius {
                blast_outcome(s[i], center, damage, knockback)
            } else {
                s[i]
            },
    )
}

/// Apply one blast to every target in the pool whose bounding circle the
/// blast overlaps (blast center within the blast radius of the target's
/// center — the blast's own radius decides, as in the collision test).
pub fn explode_against<T: Target>(
    targets: &mut Vec<T>,
    center: Vec2,
    damage: i64,
    radius: i64,
    knockback: bool,
)
    requires
        forall|i: int| 0 <= i < old(targets)@.len() ==> (#[trigger] old(targets)@[i]).t_wf(),
        center.wf(),
        0 <= damage <= 1_000_000_000,
        0 <= radius <= RADIUS_LIMIT,
    ensures
        final(targets)@ == blasted_targets_spec(
            old(targets)@,
            center,
            damage as int,
            radius as int,
            knockback,
        ),
        final(targets)@.len() == old(targets)@.len(),
        forall|i: int|
            0 <= i < old(targets)@.len() ==> #[trigger] final(targets)@[i] == (if center.dist_milli_spec(
                old(targets)@[i].t_center(),
            ) < radius {
                blast_outcome(old(targets)@[i], center, damage as int, knockback)
            } else {
                old(targets)@[i]
            }),
        forall|i: int| 0 <= i < final(targets)@.len() ==> (#[trigger] final(targets)@[i]).t_wf(),
{
    let ghost orig = targets@;
    let n = targets.len();
    let mut i: usize = 0;
    while i < n
        invariant
            n == orig.len(),
            targets@.len() == n,
            0 <= i <= n,
            forall|k: int| i <= k < n ==> targets@[k] == orig[k],
            forall|k: int|
                0 <= k < i ==> #[trigger] targets@[k] == (if center.dist_milli_spec(
                    orig[k].t_center(),
                ) < radius {
                    blast_outcome(orig[k], center, damage as int, knockback)
                } else {
                    orig[k]
                }),
            forall|k: int| 0 <= k < targets@.len() ==> (#[trigger] targets@[k]).t_wf(),
            center.wf(),
            0 <= damage <= 1_000_000_000,
            0 <= radius <= RADIUS_LIMIT,
        decreases n - i,
    {
        let overlaps = {
            let t = &targets[i];
            let b = t.bounds();
            center.dist_milli(&b.center) < radius as u64
        };
        if overlaps {
            let mut t: T = targets[i];
            explode_on(&mut t, center, damage, knockback);
            let slot = &mut targets[i];
            *slot = t;
        }
        i = i + 1;
    }
    proof {
        assert(targets@ =~= blasted_targets_spec(orig, center, damage as int, radius as int, knockback));
    }
}

/// How many targets a hit assignment strikes.
pub open spec fn count_assigned(hits: Seq<Option<Bullet>>, b: Bullet) -> int
    decreases hits.len(),
{
    if hits.len() == 0 {
        0
    } else {
        count_assigned(hits.drop_last(), b) + if hits.last() == Option::Some(b) {
            1int
        } else {
            0int
        }
    }
}

/// The consumed multiset counts exactly the assignments of each bullet.
proof fn lemma_consumed_count(hits: Seq<Option<Bullet>>, b: Bullet)
    ensures
        consumed_mset(hits).count(b) == count_assigned(hits, b),
    decreases hits.len(),
{
    if hits.len() > 0 {
        lemma_consumed_count(hits.drop_last(), b);
    }
}

/// A hit assignment consumes no more bullets than it has entries.
proof fn lemma_consumed_len(hits: Seq<Option<Bullet>>)
    ensures
        consumed_mset(hits).len() <= hits.len(),
    decreases hits.len(),
{
    if hits.len() > 0 {
        lemma_consumed_len(hits.drop_last());
    }
}

/// One bullet, one target; one target, one bullet. Whenever a resolution
/// pass admits the hit assignment `hits`:
/// - a target is struck at most once: it is either unchanged or shows the
///   effect of exactly one bullet that was in the old pool;
/// - a bullet instance strikes at most one target: for every bullet value,
///   the number of targets assigned it never exceeds how many copies the old
///   pool held (one copy, one strike);
/// - the pool shrinks by exactly the number of strikes, and by no more than
///   the number of targets.
pub proof fn lemma_one_bullet_one_target<H: Target>(
    old_targets: Seq<H>,
    old_bullets: Seq<Bullet>,
    new_targets: Seq<H>,
    new_bullets: Seq<Bullet>,
    player_pos: Option<Vec2>,
    hits: Seq<Option<Bullet>>,
)
    requires
        hits_rel(old_targets, old_bullets, new_targets, new_bullets, player_pos, hits),
    ensures
        forall|i: int|
            0 <= i < old_targets.len() ==> (#[trigger] new_targets[i] == old_targets[i]
                || exists|b: Bullet|
                old_bullets.to_multiset().count(b) > 0 && was_hit_target(old_targets[i], b)
                    && new_targets[i] == hit_outcome(old_targets[i], b, player_pos)),
        forall|b: Bullet|
            #[trigger] count_assigned(hits, b) <= old_bullets.to_multiset().count(b),
        new_bullets.len() == old_bullets.len() - consumed_mset(hits).len(),
        consumed_mset(hits).len() <= old_targets.len(),
{
    assert forall|i: int|
        0 <= i < old_targets.len() implies (#[trigger] new_targets[i] == old_targets[i]
        || exists|b: Bullet|
        old_bullets.to_multiset().count(b) > 0 && was_hit_target(old_targets[i], b)
            && new_targets[i] == hit_outcome(old_targets[i], b, player_pos)) by {
        match hits[i] {
            Option::None => {},
            Option::Some(b) => {
                lemma_consumed_count(hits, b);
                lemma_count_assigned_pos(hits, i, b);
                assert(old_bullets.to_multiset().count(b) > 0);
            },
        }
    }
    assert forall|b: Bullet|
        #[trigger] count_assigned(hits, b) <= old_bullets.to_multiset().count(b) by {
        lemma_consumed_count(hits, b);
    }
    lemma_consumed_len(hits);
    assert(new_bullets.to_multiset().len() == old_bullets.to_multiset().len() - consumed_mset(
        hits,
    ).len());
}

/// An assignment at any position makes the count of that bullet positive.
proof fn lemma_count_assigned_pos(hits: Seq<Option<Bullet>>, i: int, b: Bullet)
    requires
        0 <= i < hits.len(),
        hits[i] == Option::Some(b),
    ensures
        count_assigned(hits, b) > 0,
    decreases hits.len(),
{
    lemma_count_assigned_nonneg(hits.drop_last(), b);
    if i < hits.len() - 1 {
        lemma_count_assigned_pos(hits.drop_last(), i, b);
    }
}

proof fn lemma_count_assigned_nonneg(hits: Seq<Option<Bullet>>, b: Bullet)
    ensures
        count_assigned(hits, b) >= 0,
    decreases hits.len(),
{
    if hits.len() > 0 {
        lemma_count_assigned_nonneg(hits.drop_last(), b);
    }
}

/// The burial partition: everything that had no health left is in the
/// returned pool and nothing with health left is; everything with health
/// left survives unchanged; nothing appears from nowhere and nothing is
/// handled twice — the two pools split the original exactly.
pub proof fn lemma_burial_partition<D: Target>(orig: Seq<D>, alive: Seq<D>, dead: Seq<D>)
    requires
        alive == orig.filter(|d: D| d.t_health() > 0),
        dead == orig.filter(|d: D| d.t_health() <= 0),
    ensures
        forall|i: int|
            0 <= i < orig.len() && (#[trigger] orig[i]).t_health() <= 0 ==> dead.contains(orig[i]),
        forall|i: int|
            0 <= i < orig.len() && (#[trigger] orig[i]).t_health() > 0 ==> alive.contains(orig[i]),
        forall|k: int| 0 <= k < alive.len() ==> (#[trigger] alive[k]).t_health() > 0,
        forall|k: int| 0 <= k < dead.len() ==> (#[trigger] dead[k]).t_health() <= 0,
        forall|k: int| 0 <= k < alive.len() ==> orig.contains(#[trigger] alive[k]),
        forall|k: int| 0 <= k < dead.len() ==> orig.contains(#[trigger] dead[k]),
        alive.len() + dead.len() == orig.len(),
{
    broadcast use vstd::seq_lib::group_filter_ensures;

    lemma_filter_subset(orig, |d: D| d.t_health() > 0);
    lemma_filter_subset(orig, |d: D| d.t_health() <= 0);
    lemma_filter_split_len(orig, |d: D| d.t_health() > 0, |d: D| d.t_health() <= 0);
}

/// Every element of a filtered sequence comes from the original.
proof fn lemma_filter_subset<A>(s: Seq<A>, p: spec_fn(A) -> bool)
    ensures
        forall|k: int| 0 <= k < s.filter(p).len() ==> s.contains(#[trigger] s.filter(p)[k]),
    decreases s.len(),
{
    reveal(Seq::filter);
    if s.len() > 0 {
        lemma_filter_subset(s.drop_last(), p);
        assert forall|k: int|
            0 <= k < s.filter(p).len() implies s.contains(#[trigger] s.filter(p)[k]) by {
            let f = s.filter(p);
            let fsub = s.drop_last().filter(p);
            if p(s.last()) && k == f.len() - 1 {
                assert(s[s.len() - 1] == f[k]);
            } else {
                assert(f[k] == fsub[k]);
                assert(s.drop_last().contains(fsub[k]));
                let j = choose|j: int| 0 <= j < s.drop_last().len() && s.drop_last()[j] == fsub[k];
                assert(s[j] == fsub[k]);
            }
        }
    }
}

/// Two complementary predicates split a sequence's length exactly.
proof fn lemma_filter_split_len<A>(s: Seq<A>, p: spec_fn(A) -> bool, q: spec_fn(A) -> bool)
    requires
        forall|x: A| #[trigger] p(x) <==> !q(x),
    ensures
        s.filter(p).len() + s.filter(q).len() == s.len(),
    decreases s.len(),
{
    reveal(Seq::filter);
    if s.len() > 0 {
        lemma_filter_split_len(s.drop_last(), p, q);
    }
}

} // verus!
