//! The cadence of decodes: a periodic timer ticks, and every few ticks a
//! decode is due.

use vstd::prelude::*;

verus! {

/// Timer ticks from one decode to the next.
pub const UPDATE_INTERVAL: u32 = 3;

/// The position within each interval at which the decode is due.
pub const DUE_PHASE: u32 = 1;

/// Whether a decode is due on the tick that `count` ticks came before.
pub open spec fn due_at(count: nat) -> bool {
    count % (UPDATE_INTERVAL as nat) == DUE_PHASE
}

/// Counts timer ticks and says on which of them a decode is due.
#[derive(Clone, Copy, Debug, PartialEq, Eq)]
pub struct Schedule {
    count: u32,
}

impl View for Schedule {
    type V = nat;

    /// The number of ticks counted.
    closed spec fn view(&self) -> nat {
        self.count as nat
    }
}

impl Schedule {
    /// A schedule that has seen no tick.
    pub fn new() -> (schedule: Schedule)
        ensures
            schedule@ == 0,
    {
        Schedule { count: 0 }
    }

    /// A schedule that has counted `count` ticks already.
    pub fn from_count(count: u32) -> (schedule: Schedule)
        ensures
            schedule@ == count,
    {
        Schedule { count }
    }

    /// The number of ticks counted.
    pub fn count(&self) -> (count: u32)
        ensures
            count == self@,
    {
        self.count
    }

    /// Takes one timer tick and says whether a decode is due on it. The
    /// count starts again from zero after its largest value.
    pub fn tick(&mut self) -> (due: bool)
        ensures
            due == due_at(old(self)@),
            final(self)@ == if old(self)@ == u32::MAX {
                0
            } else {
                old(self)@ + 1
            },
    {
        let due = self.count % UPDATE_INTERVAL == DUE_PHASE;
        self.count = if self.count == u32::MAX {
            0
        } else {
            self.count + 1
        };
        due
    }
}

/// Of any three ticks in a row, a decode is due on exactly one.
pub proof fn lemma_due_once_per_interval(count: nat)
    ensures
        due_at(count) || due_at(count + 1) || due_at(count + 2),
        !(due_at(count) && due_at(count + 1)),
        !(due_at(count) && due_at(count + 2)),
        !(due_at(count + 1) && due_at(count + 2)),
{
}

} // verus!
