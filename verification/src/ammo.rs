use vstd::prelude::*;

verus! {

/// Upper bound on a magazine size; keeps the magazine-scaling arithmetic
/// inside `u32`.
pub const MAX_CAPACITY: u32 = 1_000_000;

/// The ammunition supply of a weapon: either unlimited, or a magazine with a
/// fixed capacity and the rounds still in it.
///
/// Invariant: `rounds <= capacity <= MAX_CAPACITY`.
#[derive(Clone, Copy, Debug, PartialEq, Eq, Structural)]
pub enum Ammunition {
    Infinite,
    Limited { capacity: u32, rounds: u32 },
}

impl Ammunition {
    /// Well-formedness: a magazine never holds more rounds than its capacity.
    pub open spec fn wf(self) -> bool {
        match self {
            Ammunition::Infinite => true,
            Ammunition::Limited { capacity, rounds } => rounds <= capacity
                && capacity <= MAX_CAPACITY,
        }
    }

    pub open spec fn is_infinite_spec(self) -> bool {
        self is Infinite
    }

    pub fn is_infinte(&self) -> (r: bool)
        ensures
            r == self.is_infinite_spec(),
    {
        if let Ammunition::Infinite = self {
            true
        } else {
            false
        }
    }

    /// An infinite supply is never empty; a magazine is empty at zero rounds.
    pub open spec fn is_empty_spec(self) -> bool {
        match self {
            Ammunition::Infinite => false,
            Ammunition::Limited { capacity, rounds } => rounds == 0,
        }
    }

    pub fn is_empty(&self) -> (r: bool)
        ensures
            r == self.is_empty_spec(),
    {
        match self {
            Ammunition::Infinite => false,
            Ammunition::Limited { rounds, .. } => *rounds == 0,
        }
    }

    /// Spend one round; a no-op on an infinite supply or an empty magazine.
    pub fn decrement(&mut self)
        requires
            old(self).wf(),
        ensures
            final(self).wf(),
            *final(self) == old(self).decrement_spec(),
    {
        match self {
            Ammunition::Limited { rounds, .. } => {
                if *rounds > 0 {
                    *rounds = *rounds - 1;
                }
            },
            _ => (),
        }
    }

    pub open spec fn decrement_spec(self) -> Ammunition {
        match self {
            Ammunition::Infinite => self,
            Ammunition::Limited { capacity, rounds } => if rounds > 0 {
                Ammunition::Limited { capacity, rounds: (rounds - 1) as u32 }
            } else {
                self
            },
        }
    }

    /// Fill the magazine back to capacity; a no-op on an infinite supply.
    pub fn reload(&mut self)
        requires
            old(self).wf(),
        ensures
            final(self).wf(),
            *final(self) == old(self).reload_spec(),
            !final(self).is_empty_spec() || *old(self) == (Ammunition::Limited {
                capacity: 0u32,
                rounds: 0u32,
            }),
    {
        if let Ammunition::Limited { capacity, rounds } = self {
            *rounds = *capacity;
        }
    }

    pub open spec fn reload_spec(self) -> Ammunition {
        match self {
            Ammunition::Infinite => self,
            Ammunition::Limited { capacity, rounds } => Ammunition::Limited {
                capacity,
                rounds: capacity,
            },
        }
    }

    /// Grow or shrink the capacity by a factor given in thousandths, rounded
    /// to the nearest whole round and capped at `MAX_CAPACITY`; the rounds in
    /// the magazine are kept, clipped to the new capacity. A no-op on an
    /// infinite supply.
    pub fn scale_magazine(&mut self, scalar_milli: u32)
        requires
            old(self).wf(),
            scalar_milli <= 1000_000,
        ensures
            final(self).wf(),
            *final(self) == old(self).scale_magazine_spec(scalar_milli),
    {
        if let Ammunition::Limited { capacity, rounds } = self {
            let cap: u64 = *capacity as u64;
            let sc: u64 = scalar_milli as u64;
            assert(cap * sc <= 1_000_000_000_000u64) by (nonlinear_arith)
                requires
                    cap <= 1_000_000,
                    sc <= 1_000_000,
            ;
            let scaled_wide: u64 = (cap * sc + 500) / 1000;
            let scaled: u32 = if scaled_wide > MAX_CAPACITY as u64 {
                MAX_CAPACITY
            } else {
                scaled_wide as u32
            };
            *capacity = scaled;
            if *rounds > scaled {
                *rounds = scaled;
            }
        }
    }

    pub open spec fn scale_magazine_spec(self, scalar_milli: u32) -> Ammunition {
        match self {
            Ammunition::Infinite => self,
            Ammunition::Limited { capacity, rounds } => {
                let scaled_wide = (capacity * scalar_milli + 500) / 1000;
                let scaled = if scaled_wide > MAX_CAPACITY { MAX_CAPACITY as int } else {
                    scaled_wide
                };
                Ammunition::Limited {
                    capacity: scaled as u32,
                    rounds: if rounds > scaled { scaled as u32 } else { rounds },
                }
            },
        }
    }
}

/// The magazine invariant: after any single `decrement`, `reload` or
/// `scale_magazine` step from a well-formed supply, a magazine's rounds still
/// lie between zero and its capacity; by induction the same holds after any
/// sequence of such calls.
pub proof fn lemma_ammunition_invariant(a: Ammunition, scalar_milli: u32)
    requires
        a.wf(),
        scalar_milli <= 1000_000,
    ensures
        a.decrement_spec().wf(),
        a.reload_spec().wf(),
        a.scale_magazine_spec(scalar_milli).wf(),
        a.decrement_spec() matches Ammunition::Limited { capacity, rounds } ==> 0 <= rounds
            <= capacity,
        a.reload_spec() matches Ammunition::Limited { capacity, rounds } ==> 0 <= rounds
            <= capacity,
        a.scale_magazine_spec(scalar_milli) matches Ammunition::Limited { capacity, rounds } ==> 0
            <= rounds <= capacity,
{
}

} // verus!
