//! A fixed-timestep accumulator: turns irregular spans of elapsed time into
//! a deterministic number of ticks at a constant logical rate.  The host
//! measures the elapsed time; the arithmetic lives here.

use vstd::prelude::*;

verus! {

/// Accumulates elapsed nanoseconds and pays them out as whole ticks of a
/// fixed period.
pub struct FixedTimestep {
    /// The period of one tick, in nanoseconds.
    pub timestep: u64,
    /// Elapsed time not yet paid out, always below the period.
    pub accumulator: u64,
}

impl FixedTimestep {
    /// The period is positive and the remainder strictly below it.
    pub open spec fn wf(&self) -> bool {
        1 <= self.timestep <= 1_000_000_000 && self.accumulator < self.timestep
    }

    /// A timestep ticking `hz` times per second, with nothing accumulated.
    pub fn new(hz: u32) -> (t: FixedTimestep)
        requires
            1 <= hz <= 1_000_000_000,
        ensures
            t.wf(),
            t.timestep == 1_000_000_000u64 / hz as u64,
            t.accumulator == 0,
    {
        proof {
            assert(1 <= 1_000_000_000int / (hz as int) <= 1_000_000_000) by (nonlinear_arith)
                requires
                    1 <= hz <= 1_000_000_000,
            ;
        }
        FixedTimestep { timestep: 1_000_000_000u64 / hz as u64, accumulator: 0 }
    }

    /// Adds a span of elapsed time and returns how many whole ticks it
    /// covers; the remainder stays accumulated.  Over any run of calls the
    /// ticks returned are the total elapsed time divided by the period.
    pub fn update(&mut self, elapsed_nanos: u64) -> (ticks: u64)
        requires
            old(self).wf(),
            elapsed_nanos <= u64::MAX - 1_000_000_000,
        ensures
            final(self).wf(),
            final(self).timestep == old(self).timestep,
            ticks == (old(self).accumulator + elapsed_nanos) as int / old(self).timestep as int,
            final(self).accumulator == (old(self).accumulator + elapsed_nanos) as int % old(
                self,
            ).timestep as int,
    {
        let total = self.accumulator + elapsed_nanos;
        let ticks = total / self.timestep;
        self.accumulator = total % self.timestep;
        ticks
    }
}

} // verus!
