use vstd::prelude::*;

verus! {

/// Upper bound on a timer period, about thirty years; keeps the completion
/// arithmetic inside `u64`.
pub const MAX_COOLDOWN_MS: u64 = 1_000_000_000_000;

/// The state of a countdown timer: either it has elapsed (`Ready`) or it is
/// still counting down (`Waiting`).
#[derive(Clone, Copy, Debug, PartialEq, Eq, Structural)]
pub enum TimerState {
    Waiting,
    Ready,
}

/// A countdown timer, the only temporal primitive of the simulation.
/// Durations are whole milliseconds.
///
/// Invariant: `remaining_ms <= total_ms`, and the timer is `Ready` exactly
/// when nothing remains.
#[derive(Clone, Copy, Debug, PartialEq, Eq, Structural)]
pub struct Cooldown {
    pub total_ms: u64,
    pub remaining_ms: u64,
    pub state: TimerState,
}

impl Cooldown {
    /// Well-formedness: the countdown never exceeds its period, and the
    /// state flag agrees with the remaining time.
    pub open spec fn wf(self) -> bool {
        &&& self.total_ms <= MAX_COOLDOWN_MS
        &&& self.remaining_ms <= self.total_ms
        &&& (self.state == TimerState::Ready <==> self.remaining_ms == 0)
    }

    /// A timer that starts elapsed.
    pub fn ready(total_ms: u64) -> (c: Cooldown)
        requires
            total_ms <= MAX_COOLDOWN_MS,
        ensures
            c.wf(),
            c.total_ms == total_ms,
            c.remaining_ms == 0,
            c.is_ready_spec(),
    {
        Cooldown { total_ms, remaining_ms: 0, state: TimerState::Ready }
    }

    /// A timer that starts pre-armed with its whole period left.
    /// A zero period is elapsed from the start.
    pub fn waiting(total_ms: u64) -> (c: Cooldown)
        requires
            total_ms <= MAX_COOLDOWN_MS,
        ensures
            c.wf(),
            c.total_ms == total_ms,
            c.remaining_ms == total_ms,
            c.is_ready_spec() <==> total_ms == 0,
    {
        if total_ms == 0 {
            Cooldown { total_ms, remaining_ms: 0, state: TimerState::Ready }
        } else {
            Cooldown { total_ms, remaining_ms: total_ms, state: TimerState::Waiting }
        }
    }

    pub open spec fn is_ready_spec(self) -> bool {
        self.remaining_ms == 0
    }

    /// True exactly when the countdown has fully elapsed.
    pub fn is_ready(&self) -> (r: bool)
        requires
            self.wf(),
        ensures
            r == self.is_ready_spec(),
            r <==> self.remaining_ms == 0,
    {
        match self.state {
            TimerState::Ready => true,
            TimerState::Waiting => false,
        }
    }

    /// The timer as `reset` leaves it: rearmed to its whole period.
    pub open spec fn reset_spec(self) -> Cooldown {
        Cooldown {
            total_ms: self.total_ms,
            remaining_ms: self.total_ms,
            state: if self.total_ms == 0 {
                TimerState::Ready
            } else {
                TimerState::Waiting
            },
        }
    }

    /// Rearm the timer to its whole period.
    pub fn reset(&mut self)
        requires
            old(self).wf(),
        ensures
            final(self).wf(),
            *final(self) == old(self).reset_spec(),
            final(self).total_ms == old(self).total_ms,
            final(self).remaining_ms == old(self).total_ms,
    {
        if self.total_ms == 0 {
            self.remaining_ms = 0;
            self.state = TimerState::Ready;
        } else {
            self.remaining_ms = self.total_ms;
            self.state = TimerState::Waiting;
        }
    }

    /// The timer as `subtract` leaves it: counted down by `delta_ms`,
    /// stopping at zero.
    pub open spec fn subtracted_spec(self, delta_ms: u64) -> Cooldown {
        if delta_ms >= self.remaining_ms {
            Cooldown { total_ms: self.total_ms, remaining_ms: 0, state: TimerState::Ready }
        } else {
            Cooldown {
                total_ms: self.total_ms,
                remaining_ms: (self.remaining_ms - delta_ms) as u64,
                state: TimerState::Waiting,
            }
        }
    }

    /// Count down by `delta_ms`, stopping at zero; a no-op once elapsed.
    pub fn subtract(&mut self, delta_ms: u64)
        requires
            old(self).wf(),
        ensures
            final(self).wf(),
            *final(self) == old(self).subtracted_spec(delta_ms),
            final(self).total_ms == old(self).total_ms,
            final(self).remaining_ms == if delta_ms >= old(self).remaining_ms {
                0u64
            } else {
                (old(self).remaining_ms - delta_ms) as u64
            },
    {
        match self.state {
            TimerState::Waiting => {
                if delta_ms >= self.remaining_ms {
                    self.remaining_ms = 0;
                    self.state = TimerState::Ready;
                } else {
                    self.remaining_ms = self.remaining_ms - delta_ms;
                }
            },
            TimerState::Ready => (),
        }
    }

    /// How far along the countdown is, in thousandths: 0 means freshly armed,
    /// 1000 means fully elapsed. A zero-period timer is always fully elapsed.
    pub fn percent_milli(&self) -> (p: u64)
        requires
            self.wf(),
        ensures
            p == self.percent_milli_spec(),
            0 <= p <= 1000,
    {
        if self.total_ms == 0 {
            1000
        } else {
            proof {
                lemma_percent_milli_bound(self.total_ms as int, self.remaining_ms as int);
            }
            ((self.total_ms - self.remaining_ms) * 1000) / self.total_ms
        }
    }

    pub open spec fn percent_milli_spec(self) -> u64 {
        if self.total_ms == 0 {
            1000u64
        } else {
            (((self.total_ms - self.remaining_ms) * 1000) / (self.total_ms as int)) as u64
        }
    }
}

/// Elapsed-over-total in thousandths lies between 0 and 1000 whenever the
/// elapsed share does not exceed the whole.
proof fn lemma_percent_milli_bound(total: int, remaining: int)
    requires
        0 < total,
        0 <= remaining <= total,
    ensures
        0 <= (total - remaining) * 1000 / total <= 1000,
{
    let e = total - remaining;
    assert(e * 1000 <= total * 1000) by (nonlinear_arith)
        requires 0 <= e <= total;
    assert(0 <= e * 1000 / total <= 1000) by (nonlinear_arith)
        requires 0 < total && 0 <= e * 1000 && e * 1000 <= total * 1000;
}

/// The countdown invariant, stated once for every timer: the completion
/// fraction lies in [0, 1], counting down never drives the remaining time
/// negative (it is capped at zero by construction), and the timer reads
/// ready exactly when nothing remains.
pub proof fn lemma_cooldown_invariant(c: Cooldown)
    requires
        c.wf(),
    ensures
        0 <= c.percent_milli_spec() <= 1000,
        c.remaining_ms >= 0,
        c.is_ready_spec() <==> c.remaining_ms == 0,
{
    if c.total_ms != 0 {
        lemma_percent_milli_bound(c.total_ms as int, c.remaining_ms as int);
    }
}

} // verus!
