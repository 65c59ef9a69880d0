//! The clock: tracks run time, producing a per-tick delta and a cumulative
//! elapsed time.
//!
//! Instants are plain integers in a caller-chosen unit, sampled from a
//! monotonic source by the host and handed in; the clock itself only does the
//! bookkeeping.

use vstd::prelude::*;

verus! {

/// The clock state: the instant the run started, the instant of the last
/// tick, the cumulative elapsed time and the width of the last tick.
#[derive(Clone, Copy, PartialEq, Eq, Debug)]
pub struct Time {
    pub beginning: i64,
    pub last: i64,
    pub total: i64,
    pub delta: i64,
}

impl Time {
    /// The clock's bookkeeping is consistent: it has not run backwards, and
    /// the elapsed total matches the recorded instants.
    pub open spec fn wf(self) -> bool {
        &&& 0 <= self.beginning <= self.last
        &&& self.total == self.last - self.beginning
        &&& 0 <= self.delta
    }

    /// A clock started at instant `start`: no time has passed yet.
    pub fn new(start: i64) -> (t: Time)
        requires
            0 <= start,
        ensures
            t == (Time { beginning: start, last: start, total: 0, delta: 0 }),
            t.wf(),
    {
        Time { beginning: start, last: start, total: 0, delta: 0 }
    }
}

/// The clock stage: once per tick it takes the current instant, derives the
/// delta since the previous tick and the total since the start, and records
/// the instant for the next tick.
pub struct UpdateTime;

impl UpdateTime {
    /// One clock tick at instant `now`. The time source is assumed monotonic,
    /// so `now` is no earlier than the last recorded instant.
    pub fn run(&self, time: &mut Time, now: i64)
        requires
            old(time).wf(),
            old(time).last <= now,
        ensures
            final(time).beginning == old(time).beginning,
            final(time).last == now,
            final(time).delta == now - old(time).last,
            final(time).total == now - old(time).beginning,
            final(time).wf(),
    {
        time.delta = now - time.last;
        time.total = now - time.beginning;
        time.last = now;
    }
}

} // verus!
