//! The bounded-concurrency bookkeeping of the download worker pool.
//!
//! The surrounding application owns the tasks; the [`Dispatcher`]
//! decides when one more may be launched, and its well-formedness bounds
//! the number in flight at every reachable state.

use vstd::prelude::*;

verus! {

/// The hard ceiling on simultaneously in-flight downloads.
pub const MAX_IN_FLIGHT: usize = 20;

/// The state of the download pool: how many of the batch's tasks have
/// been launched and how many have come back.
pub struct Dispatcher {
    pub total: usize,
    pub launched: usize,
    pub completed: usize,
}

impl Dispatcher {
    /// The number of tasks launched and not yet completed.
    pub open spec fn in_flight(self) -> int {
        self.launched - self.completed
    }

    /// Every reachable dispatcher state satisfies this: no task
    /// completes before it launches, no task launches past the batch,
    /// and no more than the ceiling are in flight.
    pub open spec fn wf(self) -> bool {
        self.completed <= self.launched <= self.total && self.launched - self.completed
            <= MAX_IN_FLIGHT
    }

    /// Starts a batch of `total` tasks with nothing launched.
    pub fn new(total: usize) -> (d: Dispatcher)
        ensures
            d.wf(),
            d.total == total,
            d.launched == 0,
            d.completed == 0,
    {
        Dispatcher { total, launched: 0, completed: 0 }
    }

    /// Launches the next task when the batch has one left and the
    /// ceiling allows another, handing out its index in the batch.
    pub fn try_launch(&mut self) -> (r: Option<usize>)
        requires
            old(self).wf(),
        ensures
            final(self).wf(),
            final(self).total == old(self).total,
            final(self).completed == old(self).completed,
            final(self).in_flight() <= MAX_IN_FLIGHT,
            match r {
                Some(i) => old(self).launched < old(self).total && old(self).in_flight()
                    < MAX_IN_FLIGHT && i == old(self).launched && final(self).launched == old(
                    self,
                ).launched + 1,
                None => (old(self).launched == old(self).total || old(self).in_flight()
                    == MAX_IN_FLIGHT) && final(self).launched == old(self).launched,
            },
    {
        if self.launched < self.total && self.launched - self.completed < MAX_IN_FLIGHT {
            let i = self.launched;
            self.launched = self.launched + 1;
            Some(i)
        } else {
            None
        }
    }

    /// Records one task that came back.
    pub fn complete(&mut self)
        requires
            old(self).wf(),
            old(self).in_flight() > 0,
        ensures
            final(self).wf(),
            final(self).total == old(self).total,
            final(self).launched == old(self).launched,
            final(self).completed == old(self).completed + 1,
    {
        self.completed = self.completed + 1;
    }

    /// Whether every task of the batch has come back.
    pub fn done(&self) -> (r: bool)
        requires
            self.wf(),
        ensures
            r == (self.completed == self.total),
            r ==> self.launched == self.total,
    {
        self.completed == self.total
    }
}

/// Concurrency law: in any reachable dispatcher state — `new`
/// establishes `wf` and every operation preserves it — at most
/// `MAX_IN_FLIGHT` downloads are in flight.
pub proof fn lemma_bounded_in_flight(d: Dispatcher)
    requires
        d.wf(),
    ensures
        d.in_flight() <= MAX_IN_FLIGHT,
{
}

} // verus!
