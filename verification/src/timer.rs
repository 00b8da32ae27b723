//! The generation clock: accumulates elapsed wall time and fires once per
//! tick interval, carrying the remainder so that varying frame rates do not
//! drift the simulation rate.

use vstd::prelude::*;

use crate::options::BASE_TICK_MILLIS;
use crate::options::MAX_TICK_MILLIS;
use crate::options::MIN_TICK_MILLIS;

verus! {

/// The clock that paces generation steps: a tick interval and the elapsed
/// time accumulated toward the next tick, both in milliseconds.
pub struct GameTimer {
    interval_millis: u32,
    elapsed_millis: u32,
}

impl GameTimer {
    /// The tick interval, as the contracts speak of it.
    pub closed spec fn spec_interval(self) -> u32 {
        self.interval_millis
    }

    /// The accumulated elapsed time, as the contracts speak of it.
    pub closed spec fn spec_elapsed(self) -> u32 {
        self.elapsed_millis
    }

    /// A well-formed clock: the interval lies in its allowed range and the
    /// accumulator holds strictly less than one interval.
    pub open spec fn wf(self) -> bool {
        &&& MIN_TICK_MILLIS <= self.spec_interval() <= MAX_TICK_MILLIS
        &&& self.spec_elapsed() < self.spec_interval()
    }

    /// Create a clock with the given tick interval and nothing accumulated.
    pub fn new(interval_millis: u32) -> (r: GameTimer)
        requires
            MIN_TICK_MILLIS <= interval_millis <= MAX_TICK_MILLIS,
        ensures
            r.wf(),
            r.spec_interval() == interval_millis,
            r.spec_elapsed() == 0,
    {
        GameTimer { interval_millis, elapsed_millis: 0 }
    }

    /// The tick interval in milliseconds.
    pub fn interval_millis(&self) -> (r: u32)
        ensures
            r == self.spec_interval(),
    {
        self.interval_millis
    }

    /// The accumulated elapsed time in milliseconds.
    pub fn elapsed_millis(&self) -> (r: u32)
        ensures
            r == self.spec_elapsed(),
    {
        self.elapsed_millis
    }

    /// Accumulate an elapsed time delta and report how many whole tick
    /// intervals have now passed: one generation is due per fired interval,
    /// and the remainder is carried, never dropped.
    pub fn tick(&mut self, delta_millis: u32) -> (fires: u64)
        requires
            old(self).wf(),
        ensures
            final(self).wf(),
            final(self).spec_interval() == old(self).spec_interval(),
            fires == (old(self).spec_elapsed() + delta_millis) as int / old(
                self,
            ).spec_interval() as int,
            final(self).spec_elapsed() == (old(self).spec_elapsed() + delta_millis) as int % old(
                self,
            ).spec_interval() as int,
    {
        let total: u64 = self.elapsed_millis as u64 + delta_millis as u64;
        let interval: u64 = self.interval_millis as u64;
        let fires: u64 = total / interval;
        self.elapsed_millis = (total % interval) as u32;
        fires
    }

    /// Change the tick interval and reset the accumulator, as a clock is
    /// reset whenever the tick interval setting changes.
    pub fn set_interval(&mut self, interval_millis: u32)
        requires
            MIN_TICK_MILLIS <= interval_millis <= MAX_TICK_MILLIS,
        ensures
            final(self).wf(),
            final(self).spec_interval() == interval_millis,
            final(self).spec_elapsed() == 0,
    {
        self.interval_millis = interval_millis;
        self.elapsed_millis = 0;
    }
}

impl Default for GameTimer {
    fn default() -> (r: Self)
        ensures
            r.wf(),
            r.spec_interval() == BASE_TICK_MILLIS,
            r.spec_elapsed() == 0,
    {
        Self { interval_millis: BASE_TICK_MILLIS, elapsed_millis: 0 }
    }
}

} // verus!
