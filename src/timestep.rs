use vstd::prelude::*;

use crate::flint::Flint;

verus! {

/// Decouples simulation ticks from the frame rate.
///
/// Frame time is accumulated in nanoseconds; every whole `timestep` in the
/// accumulator is one simulation tick, and what is left over, as a fraction of a
/// timestep, is how far rendering is between the last two committed states.
pub struct FixedTimestep {
    timestep: u64,
    accumulator: u64,
    max_ticks: u64,
}

impl FixedTimestep {
    pub closed spec fn timestep(&self) -> nat {
        self.timestep as nat
    }

    /// Time carried over toward the next tick.
    pub closed spec fn accumulator(&self) -> nat {
        self.accumulator as nat
    }

    /// The most ticks one frame may run; backlog beyond it is dropped.
    pub closed spec fn max_ticks(&self) -> nat {
        self.max_ticks as nat
    }

    pub open spec fn wf(&self) -> bool {
        0 < self.accumulator() + 1 <= self.timestep()
    }

    /// A clock that ticks every `timestep` nanoseconds and runs at most
    /// `max_ticks` ticks in one frame.
    pub fn new(timestep: u64, max_ticks: u64) -> (r: FixedTimestep)
        requires
            timestep > 0,
        ensures
            r.wf(),
            r.timestep() == timestep,
            r.max_ticks() == max_ticks,
            r.accumulator() == 0,
    {
        FixedTimestep { timestep, accumulator: 0, max_ticks }
    }

    /// Adds a frame's elapsed time and returns how many ticks to run now: every
    /// whole timestep owed, up to the cap. What remains in the accumulator is
    /// always less than one timestep; owed ticks beyond the cap are dropped.
    pub fn advance(&mut self, delta: u64) -> (ticks: u64)
        requires
            old(self).wf(),
        ensures
            final(self).wf(),
            final(self).timestep() == old(self).timestep(),
            final(self).max_ticks() == old(self).max_ticks(),
            ticks == vstd::math::min(
                ((old(self).accumulator() + delta as nat) / old(self).timestep()) as int,
                old(self).max_ticks() as int,
            ),
            final(self).accumulator() == (old(self).accumulator() + delta as nat) % old(self).timestep(),
    {
        let total: u128 = self.accumulator as u128 + delta as u128;
        let step: u128 = self.timestep as u128;
        let due: u128 = total / step;
        let rest: u128 = total % step;
        self.accumulator = rest as u64;
        if due > self.max_ticks as u128 {
            self.max_ticks
        } else {
            due as u64
        }
    }

    /// How far the frame lies between the last tick and the next, as a fixed-point
    /// fraction in `[0, 1)`: `accumulator / timestep`, rounded down.
    pub fn alpha(&self) -> (a: Flint)
        requires
            self.wf(),
        ensures
            a.raw == self.accumulator() * 65536 / self.timestep(),
            0 <= a.raw < 65536,
    {
        let scaled: u128 = self.accumulator as u128 * 65536;
        let q: u128 = scaled / self.timestep as u128;
        proof {
            assert(q < 65536) by (nonlinear_arith)
                requires
                    q == scaled / (self.timestep as u128),
                    scaled == self.accumulator * 65536,
                    self.accumulator < self.timestep,
            ;
        }
        Flint { raw: q as i32 }
    }
}

} // verus!
