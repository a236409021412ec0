//! The deadline clock capability: a monotonic nanosecond clock with a
//! blocking sleep, consumed by the timer worker and supplied by its host.

use vstd::prelude::*;

verus! {

/// A monotonic, high-resolution clock with a blocking sleep primitive. The
/// worker consumes this as a capability; the host supplies the real clock.
/// `time_ns` is the clock's current reading in nanoseconds: it never
/// decreases, and a sleep advances it by at least the requested duration.
pub trait DeadlineClock: Sized {
    /// The clock's current reading, in nanoseconds from its epoch. The
    /// default stands only so that host-side clocks, which no contract is
    /// checked against, need not model their reading; a clock the verifier
    /// reasons about overrides it.
    open spec fn time_ns(&self) -> int {
        0
    }

    /// Reads the clock. The reading never runs backwards.
    fn now(&mut self) -> (r: u64)
        ensures
            old(self).time_ns() <= final(self).time_ns(),
            r == final(self).time_ns(),
    ;

    /// Blocks the calling thread for at least `ns` nanoseconds; a zero
    /// duration returns immediately.
    fn sleep_ns(&mut self, ns: u64)
        requires
            old(self).time_ns() + ns <= u64::MAX,
        ensures
            old(self).time_ns() + ns <= final(self).time_ns(),
    ;
}

/// A simulated clock: time advances only when it is slept on, by exactly the
/// requested duration. It makes the timer's timing behaviour deterministic,
/// so tests can observe deadlines without real waiting.
pub struct SimClock {
    /// The simulated clock reading, in nanoseconds.
    pub now_ns: u64,
}

impl SimClock {
    /// A simulated clock whose first reading is `start_ns`.
    pub fn new(start_ns: u64) -> (r: SimClock)
        ensures
            r.time_ns() == start_ns,
    {
        SimClock { now_ns: start_ns }
    }

    /// The current simulated reading, without advancing it.
    pub fn reading(&self) -> (r: u64)
        ensures
            r == self.time_ns(),
    {
        self.now_ns
    }
}

impl DeadlineClock for SimClock {
    open spec fn time_ns(&self) -> int {
        self.now_ns as int
    }

    fn now(&mut self) -> (r: u64)
        ensures
            final(self).time_ns() == old(self).time_ns(),
    {
        self.now_ns
    }

    fn sleep_ns(&mut self, ns: u64)
        ensures
            final(self).time_ns() == old(self).time_ns() + ns,
    {
        self.now_ns = self.now_ns + ns;
    }
}

} // verus!
