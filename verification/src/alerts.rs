use std::collections::VecDeque;

use vstd::prelude::*;

use crate::color::{lerp_channel, lerp_channel_spec, Color};
use crate::cooldown::Cooldown;

verus! {

/// How long an alert lives, in milliseconds.
pub const ALERT_LIFETIME_MS: u64 = 3000;

/// The most alerts the queue holds; older ones fall off the front.
pub const ALERT_QUEUE_MAX: usize = 10;

/// A transient UI message with a lifetime and a color that fades out over
/// the final third of that lifetime.
#[derive(Clone, Debug)]
pub struct Alert {
    pub message: String,
    pub lifetime: Cooldown,
    pub color: Color,
}

impl Alert {
    pub open spec fn wf(self) -> bool {
        self.lifetime.wf() && self.color.wf()
    }

    /// A white alert with the standard lifetime.
    pub fn new(message: String) -> (a: Alert)
        ensures
            a.wf(),
            a.message == message,
            a.color == (Color { r: 1000, g: 1000, b: 1000, a: 1000 }),
            a.lifetime.total_ms == ALERT_LIFETIME_MS,
            a.lifetime.remaining_ms == ALERT_LIFETIME_MS,
    {
        Alert::with_color(message, Color::white())
    }

    /// An alert in a chosen color with the standard lifetime.
    pub fn with_color(message: String, color: Color) -> (a: Alert)
        requires
            color.wf(),
        ensures
            a.wf(),
            a.message == message,
            a.color == color,
            a.lifetime.total_ms == ALERT_LIFETIME_MS,
            a.lifetime.remaining_ms == ALERT_LIFETIME_MS,
    {
        Alert { message, lifetime: Cooldown::waiting(ALERT_LIFETIME_MS), color }
    }

    /// The fade factor at a given elapsed fraction (in thousandths): full
    /// strength for the first two thirds of the lifetime, then a linear
    /// fade to nothing, clipped to the fixed-point band.
    pub open spec fn fade_spec(p: u64) -> int {
        if p > 660 {
            let f = (1000 - p) * 3;
            if f > 1000 {
                1000
            } else {
                f as int
            }
        } else {
            1000
        }
    }

    /// The display color right now: the alert's color with its alpha scaled
    /// by the fade factor.
    pub fn color(&self) -> (c: Color)
        requires
            self.wf(),
        ensures
            c.r == self.color.r,
            c.g == self.color.g,
            c.b == self.color.b,
            c.a == lerp_channel_spec(
                self.color.a as int,
                0,
                1000 - Alert::fade_spec(self.lifetime.percent_milli_spec()),
            ),
            c.wf(),
    {
        let p = self.lifetime.percent_milli();
        let f: u64 = if p > 660 {
            let f0 = (1000 - p) * 3;
            if f0 > 1000 {
                1000
            } else {
                f0
            }
        } else {
            1000
        };
        let a = lerp_channel(self.color.a, 0, 1000 - f as i64);
        Color { r: self.color.r, g: self.color.g, b: self.color.b, a }
    }
}

/// Append an alert to the queue; if that pushes it past its bound, the
/// oldest falls off the front.
pub fn push_alert(messages: &mut VecDeque<Alert>, alert: Alert)
    requires
        old(messages)@.len() <= ALERT_QUEUE_MAX,
    ensures
        final(messages)@ == if old(messages)@.len() + 1 > ALERT_QUEUE_MAX {
            old(messages)@.push(alert).subrange(1, old(messages)@.len() as int + 1)
        } else {
            old(messages)@.push(alert)
        },
        final(messages)@.len() <= ALERT_QUEUE_MAX,
{
    messages.push_back(alert);
    if messages.len() > ALERT_QUEUE_MAX {
        messages.pop_front();
        proof {
            assert(messages@ =~= old(messages)@.push(alert).subrange(
                1,
                old(messages)@.len() as int + 1,
            ));
        }
    }
}

/// An alert one frame later: its lifetime counted down.
pub open spec fn aged_alert_spec(a: Alert, delta_ms: u64) -> Alert {
    Alert { lifetime: a.lifetime.subtracted_spec(delta_ms), ..a }
}

/// The alert queue one frame later: every lifetime counted down, the
/// expired alerts gone, the rest in their old order.
pub open spec fn aged_alerts_spec(s: Seq<Alert>, delta_ms: u64) -> Seq<Alert> {
    s.map_values(|a: Alert| aged_alert_spec(a, delta_ms)).filter(
        |a: Alert| !a.lifetime.is_ready_spec(),
    )
}

/// One frame for the alert queue: exactly the aged partition — every
/// lifetime counts down, the alerts whose lifetime has elapsed leave, and
/// the rest keep their order.
pub fn tick_alerts(messages: &mut VecDeque<Alert>, delta_ms: u64)
    requires
        forall|i: int| 0 <= i < old(messages)@.len() ==> (#[trigger] old(messages)@[i]).wf(),
    ensures
        final(messages)@ == aged_alerts_spec(old(messages)@, delta_ms),
        final(messages)@.len() <= old(messages)@.len(),
        forall|i: int| 0 <= i < final(messages)@.len() ==> (#[trigger] final(messages)@[i]).wf(),
        forall|i: int|
            0 <= i < final(messages)@.len() ==> !(#[trigger] final(messages)@[i]).lifetime.is_ready_spec(),
{
    let ghost orig = old(messages)@;
    let ghost tick = |a: Alert| aged_alert_spec(a, delta_ms);
    let ghost live = |a: Alert| !a.lifetime.is_ready_spec();
    let mut kept: VecDeque<Alert> = VecDeque::new();
    let ghost mut i: int = 0;
    proof {
        assert(orig.take(0).map_values(tick) =~= Seq::<Alert>::empty());
        assert(kept@ =~= orig.take(0).map_values(tick).filter(live));
    }
    loop
        invariant
            0 <= i <= orig.len(),
            messages@.len() + i == orig.len(),
            forall|k: int| 0 <= k < messages@.len() ==> #[trigger] messages@[k] == orig[i + k],
            kept@ == orig.take(i).map_values(tick).filter(live),
            tick == (|a: Alert| aged_alert_spec(a, delta_ms)),
            live == (|a: Alert| !a.lifetime.is_ready_spec()),
            forall|k: int| 0 <= k < orig.len() ==> (#[trigger] orig[k]).wf(),
            forall|k: int| 0 <= k < kept@.len() ==> (#[trigger] kept@[k]).wf(),
            forall|k: int|
                0 <= k < kept@.len() ==> !(#[trigger] kept@[k]).lifetime.is_ready_spec(),
        ensures
            i == orig.len(),
            messages@.len() == 0,
            kept@ == orig.take(orig.len() as int).map_values(tick).filter(live),
            forall|k: int| 0 <= k < kept@.len() ==> (#[trigger] kept@[k]).wf(),
            forall|k: int|
                0 <= k < kept@.len() ==> !(#[trigger] kept@[k]).lifetime.is_ready_spec(),
        decreases messages@.len(),
    {
        let popped = messages.pop_front();
        match popped {
            None => {
                break;
            },
            Some(mut a) => {
                proof {
                    assert(a == orig[i]);
                }
                a.lifetime.subtract(delta_ms);
                proof {
                    assert(a == tick(orig[i]));
                    assert(orig.take(i + 1).map_values(tick) =~= orig.take(i).map_values(
                        tick,
                    ).push(tick(orig[i])));
                    assert(orig.take(i).map_values(tick).push(tick(orig[i])) =~= orig.take(
                        i,
                    ).map_values(tick) + seq![tick(orig[i])]);
                    Seq::<Alert>::filter_distributes_over_add(
                        orig.take(i).map_values(tick),
                        seq![tick(orig[i])],
                        live,
                    );
                    crate::combat::lemma_filter_singleton(tick(orig[i]), live);
                }
                if !a.lifetime.is_ready() {
                    kept.push_back(a);
                }
                proof {
                    assert(kept@ =~= orig.take(i + 1).map_values(tick).filter(live));
                    i = i + 1;
                }
            },
        }
    }
    proof {
        assert(orig.take(orig.len() as int) =~= orig);
    }
    *messages = kept;
}

} // verus!
