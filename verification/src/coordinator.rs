//! Tick coordination: the bookkeeping behind the two interchangeable
//! designs for "advance the global clock by one discrete step, during which
//! every walker attempts exactly one move". The blocking itself — a barrier
//! wait or a rendezvous-channel receive — happens in the surrounding
//! application; these types carry the counting that makes a tick a tick.

use vstd::prelude::*;

verus! {

/// The counting state of a cyclic rendezvous barrier sized to the walker
/// population: a tick boundary is crossed exactly when the last walker
/// arrives, and the count then resets for the next tick.
pub struct TickBarrier {
    size: usize,
    arrived: usize,
}

impl TickBarrier {
    /// How many walkers the barrier waits for each tick.
    pub closed spec fn size(&self) -> int {
        self.size as int
    }

    /// How many walkers have arrived in the current tick so far.
    pub closed spec fn arrived(&self) -> int {
        self.arrived as int
    }

    /// The barrier is consistent: sized for at least one walker, and never
    /// holding a full round of arrivals (the full round is what releases).
    pub open spec fn wf(&self) -> bool {
        &&& self.size() >= 1
        &&& self.arrived() < self.size()
    }

    /// A fresh barrier for `size` walkers with no arrivals yet.
    pub fn new(size: usize) -> (r: TickBarrier)
        requires
            size >= 1,
        ensures
            r.wf(),
            r.size() == size,
            r.arrived() == 0,
    {
        TickBarrier { size, arrived: 0 }
    }

    /// Records one walker's arrival at the rendezvous. The result says
    /// whether this arrival completes the round: the tick boundary is
    /// crossed exactly on the `size`-th arrival, and only then does the
    /// count reset, releasing all walkers into the next tick together.
    pub fn arrive(&mut self) -> (released: bool)
        requires
            old(self).wf(),
        ensures
            final(self).wf(),
            final(self).size() == old(self).size(),
            released == (old(self).arrived() + 1 == old(self).size()),
            released ==> final(self).arrived() == 0,
            !released ==> final(self).arrived() == old(self).arrived() + 1,
    {
        if self.arrived + 1 == self.size {
            self.arrived = 0;
            true
        } else {
            self.arrived = self.arrived + 1;
            false
        }
    }
}

/// The driver-side state of the notification design: one zero-capacity
/// rendezvous channel per walker, signalled in a fixed order once per tick,
/// so every walker is admitted into each tick exactly once.
pub struct TickNotifier {
    walkers: usize,
    signaled: usize,
}

impl TickNotifier {
    /// How many walkers are driven.
    pub closed spec fn walkers(&self) -> int {
        self.walkers as int
    }

    /// How many walkers have already been signalled in the current tick.
    pub closed spec fn signaled(&self) -> int {
        self.signaled as int
    }

    /// The notifier is consistent: at least one walker, and never more
    /// signals than walkers within one tick.
    pub open spec fn wf(&self) -> bool {
        &&& self.walkers() >= 1
        &&& self.signaled() <= self.walkers()
    }

    /// A fresh notifier with the current tick's signals all still owed.
    pub fn new(walkers: usize) -> (r: TickNotifier)
        requires
            walkers >= 1,
        ensures
            r.wf(),
            r.walkers() == walkers,
            r.signaled() == 0,
    {
        TickNotifier { walkers, signaled: 0 }
    }

    /// Whether every walker has been signalled for the current tick.
    pub fn tick_done(&self) -> (r: bool)
        ensures
            r == (self.signaled() == self.walkers()),
    {
        self.signaled == self.walkers
    }

    /// Picks the next walker owed a signal this tick. Walkers are signalled
    /// in index order, each exactly once per tick.
    pub fn signal_next(&mut self) -> (w: usize)
        requires
            old(self).wf(),
            old(self).signaled() < old(self).walkers(),
        ensures
            final(self).wf(),
            final(self).walkers() == old(self).walkers(),
            w == old(self).signaled(),
            w < old(self).walkers(),
            final(self).signaled() == old(self).signaled() + 1,
    {
        let w = self.signaled;
        self.signaled = self.signaled + 1;
        w
    }

    /// Opens the next tick once the current one is fully signalled.
    pub fn start_tick(&mut self)
        requires
            old(self).wf(),
            old(self).signaled() == old(self).walkers(),
        ensures
            final(self).wf(),
            final(self).walkers() == old(self).walkers(),
            final(self).signaled() == 0,
    {
        self.signaled = 0;
    }
}

} // verus!
