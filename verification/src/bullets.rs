use vstd::prelude::*;

use crate::entity::{Bullet, BULLET_LIFESPAN_MS};
use crate::geom::Vec2;

verus! {

/// The pool with every expired bullet dropped, order kept.
pub open spec fn culled_bullets_spec(s: Seq<Bullet>, now_ms: u64) -> Seq<Bullet> {
    s.filter(|b: Bullet| b.live_at_spec(now_ms))
}

/// Drop every bullet whose lifespan has run out at `now_ms`; the live ones
/// keep their order.
pub fn cull_bullets(bullets: &mut Vec<Bullet>, now_ms: u64)
    requires
        forall|i: int| 0 <= i < old(bullets)@.len() ==> (#[trigger] old(bullets)@[i]).wf(),
        forall|i: int| 0 <= i < old(bullets)@.len() ==> (#[trigger] old(bullets)@[i]).birth_ms <= now_ms,
    ensures
        final(bullets)@ == culled_bullets_spec(old(bullets)@, now_ms),
        final(bullets)@ == old(bullets)@.filter(|b: Bullet| b.live_at_spec(now_ms)),
        forall|i: int| 0 <= i < final(bullets)@.len() ==> (#[trigger] final(bullets)@[i]).wf(),
        forall|i: int|
            0 <= i < final(bullets)@.len() ==> (#[trigger] final(bullets)@[i]).live_at_spec(now_ms),
        forall|i: int|
            0 <= i < final(bullets)@.len() ==> (#[trigger] final(bullets)@[i]).birth_ms <= now_ms,
{
    let ghost orig = bullets@;
    let ghost live = |b: Bullet| b.live_at_spec(now_ms);
    let mut kept: Vec<Bullet> = Vec::new();
    let n = bullets.len();
    let mut i: usize = 0;
    while i < n
        invariant
            n == orig.len(),
            bullets@ == orig,
            0 <= i <= n,
            kept@ == orig.take(i as int).filter(live),
            live == (|b: Bullet| b.live_at_spec(now_ms)),
            forall|k: int| 0 <= k < orig.len() ==> (#[trigger] orig[k]).wf(),
            forall|k: int| 0 <= k < orig.len() ==> (#[trigger] orig[k]).birth_ms <= now_ms,
            forall|k: int| 0 <= k < kept@.len() ==> (#[trigger] kept@[k]).wf(),
            forall|k: int| 0 <= k < kept@.len() ==> (#[trigger] kept@[k]).live_at_spec(now_ms),
            forall|k: int| 0 <= k < kept@.len() ==> (#[trigger] kept@[k]).birth_ms <= now_ms,
        decreases n - i,
    {
        let b: Bullet = bullets[i];
        proof {
            assert(orig.take(i as int + 1) =~= orig.take(i as int) + seq![orig[i as int]]);
            Seq::<Bullet>::filter_distributes_over_add(
                orig.take(i as int),
                seq![orig[i as int]],
                live,
            );
            crate::combat::lemma_filter_singleton(orig[i as int], live);
        }
        if b.live_at(now_ms) {
            kept.push(b);
        }
        proof {
            assert(kept@ =~= orig.take(i as int + 1).filter(live));
        }
        i = i + 1;
    }
    proof {
        assert(orig.take(n as int) =~= orig);
    }
    *bullets = kept;
}


/// The whole pool moved by one frame.
pub open spec fn advanced_bullets_spec(s: Seq<Bullet>, delta_ms: u64) -> Seq<Bullet> {
    s.map_values(|b: Bullet| advanced_bullet_spec(b, delta_ms))
}

/// Where a bullet sits after a frame: its velocity scaled by the elapsed
/// milliseconds, added to its position (clamped to the coordinate band).
pub open spec fn advanced_bullet_spec(b: Bullet, delta_ms: u64) -> Bullet {
    let dx = crate::trig::div_milli_spec(b.velocity.x * delta_ms);
    let dy = crate::trig::div_milli_spec(b.velocity.y * delta_ms);
    Bullet {
        position: Vec2 {
            x: crate::geom::clamp_coord_spec(b.position.x + dx) as i64,
            y: crate::geom::clamp_coord_spec(b.position.y + dy) as i64,
        },
        ..b
    }
}

/// Move every bullet by one frame.
pub fn advance_bullets(bullets: &mut Vec<Bullet>, delta_ms: u64)
    requires
        forall|i: int| 0 <= i < old(bullets)@.len() ==> (#[trigger] old(bullets)@[i]).wf(),
    ensures
        final(bullets)@ == advanced_bullets_spec(old(bullets)@, delta_ms),
        final(bullets)@.len() == old(bullets)@.len(),
        forall|i: int|
            0 <= i < final(bullets)@.len() ==> #[trigger] final(bullets)@[i]
                == advanced_bullet_spec(old(bullets)@[i], delta_ms),
        forall|i: int| 0 <= i < final(bullets)@.len() ==> (#[trigger] final(bullets)@[i]).wf(),
        forall|i: int|
            0 <= i < final(bullets)@.len() ==> (#[trigger] final(bullets)@[i]).birth_ms == old(bullets)@[i].birth_ms,
{
    let ghost orig = bullets@;
    let n = bullets.len();
    let mut i: usize = 0;
    while i < n
        invariant
            n == orig.len(),
            bullets@.len() == n,
            0 <= i <= n,
            forall|k: int| i <= k < n ==> (#[trigger] bullets@[k]) == orig[k],
            forall|k: int|
                0 <= k < i ==> #[trigger] bullets@[k] == advanced_bullet_spec(orig[k], delta_ms),
            forall|k: int| 0 <= k < n ==> (#[trigger] orig[k]).wf(),
            forall|k: int| 0 <= k < bullets@.len() ==> (#[trigger] bullets@[k]).wf(),
        decreases n - i,
    {
        let mut b: Bullet = bullets[i];
        proof {
            crate::movement::lemma_step_delta_bounds(b.velocity.x as int, delta_ms);
            crate::movement::lemma_step_delta_bounds(b.velocity.y as int, delta_ms);
        }
        let dx: i128 = crate::trig::div_milli(b.velocity.x as i128 * delta_ms as i128);
        let dy: i128 = crate::trig::div_milli(b.velocity.y as i128 * delta_ms as i128);
        b.position = Vec2 {
            x: crate::geom::clamp_coord(b.position.x as i128 + dx),
            y: crate::geom::clamp_coord(b.position.y as i128 + dy),
        };
        let slot = &mut bullets[i];
        *slot = b;
        i = i + 1;
    }
    proof {
        assert(bullets@ =~= advanced_bullets_spec(orig, delta_ms));
    }
}

/// The bullet-lifespan law: a bullet born at `t` is still present a hair
/// before one second of age and gone a hair after it — here a hundredth of
/// a second to either side, well within one frame.
pub proof fn lemma_bullet_lifespan(b: Bullet, t: u64)
    requires
        b.birth_ms == t,
        t + 1010 <= u64::MAX,
    ensures
        b.live_at_spec((t + 990) as u64),
        !b.live_at_spec((t + 1010) as u64),
{
}

} // verus!
