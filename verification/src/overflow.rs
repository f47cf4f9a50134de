//! The overflow accumulator: how often the counter wrapped in this window.

use vstd::prelude::*;
use crate::counter::PulseCounter;

verus! {

/// Largest number of wraps the accumulator can hold.
pub const WRAPS_MAX: u16 = 65535;

/// `wraps` once more, held at `WRAPS_MAX`.
pub open spec fn wraps_plus(wraps: int, more: int) -> int {
    if wraps + more <= WRAPS_MAX as int {
        wraps + more
    } else {
        WRAPS_MAX as int
    }
}

/// Counts the wraps of the pulse counter since the last sample.
#[derive(Clone, Copy, Debug, PartialEq, Eq, Structural)]
pub struct OverflowAccumulator {
    /// Wraps recorded since the last reset.
    pub wraps: u16,
}

impl OverflowAccumulator {
    /// An accumulator with no wrap recorded.
    pub fn new() -> (acc: OverflowAccumulator)
        ensures
            acc.wraps == 0,
    {
        OverflowAccumulator { wraps: 0 }
    }

    /// Records one wrap. Every call counts; at `WRAPS_MAX` the count stays.
    pub fn record_wrap(&mut self)
        ensures
            final(self).wraps == wraps_plus(old(self).wraps as int, 1),
    {
        if self.wraps < WRAPS_MAX {
            self.wraps = self.wraps + 1;
        }
    }

    /// The wraps recorded so far.
    pub fn count(&self) -> (wraps: u16)
        ensures
            wraps == self.wraps,
    {
        self.wraps
    }

    /// Forgets the recorded wraps, once a sample has consumed them.
    pub fn reset(&mut self)
        ensures
            final(self).wraps == 0,
    {
        self.wraps = 0;
    }

    /// The overflow interrupt against a counter held in software: where the
    /// flag is pending it is cleared first and the wrap recorded after;
    /// where it is not, the interrupt does not fire and nothing changes.
    pub fn service(&mut self, counter: &mut PulseCounter)
        ensures
            final(counter).value == old(counter).value,
            !final(counter).overflow_pending,
            final(self).wraps == wraps_plus(
                old(self).wraps as int,
                if old(counter).overflow_pending { 1int } else { 0int },
            ),
    {
        if counter.overflow_pending {
            counter.clear_overflow();
            self.record_wrap();
        }
    }
}

} // verus!
