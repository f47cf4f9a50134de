//! Frequency samples: the pulse count of one window, rebuilt from the wrap
//! count and the counter value, and scaled to the length of the window.

use vstd::prelude::*;
use crate::counter::{MODULUS, RESET_PRIME};

verus! {

/// Pulses that `wraps` wraps and a counter value of `raw` stand for.
pub open spec fn pulse_count(wraps: int, raw: int) -> int {
    wraps * (MODULUS as int) + raw
}

/// Pulses per time unit, rounded down, when `count` pulses fell into a
/// window of `window_ticks` ticks and a time unit has `ticks_per_unit` ticks.
pub open spec fn scaled(count: int, window_ticks: int, ticks_per_unit: int) -> int {
    (count * ticks_per_unit) / window_ticks
}

/// Rebuilds the pulse count of a window.
pub fn compose_count(wraps: u16, raw: u16) -> (count: u32)
    ensures
        count == pulse_count(wraps as int, raw as int),
{
    (wraps as u32) * MODULUS + (raw as u32)
}

/// The values to write to the count register, in this order, to reset it.
///
/// A single write of zero does not reliably land on this timer; a nonzero
/// write followed by the write of zero does.
pub fn reset_sequence() -> (writes: [u16; 2])
    ensures
        writes@ == seq![RESET_PRIME, 0u16],
        writes@[0] != 0,
        writes@[1] == 0,
{
    [RESET_PRIME, 0]
}

/// Length of the sampling window and of the time unit, both in ticks of the
/// sampling timer.
#[derive(Clone, Copy, Debug)]
pub struct SampleWindow {
    ticks: u32,
    ticks_per_unit: u32,
}

impl SampleWindow {
    #[verifier::type_invariant]
    spec fn positive(self) -> bool {
        self.ticks >= 1 && self.ticks_per_unit >= 1
    }

    /// Ticks per window: the scheduler samples on every `ticks`-th tick.
    pub closed spec fn spec_ticks(&self) -> u32 {
        self.ticks
    }

    /// Ticks per time unit.
    pub closed spec fn spec_ticks_per_unit(&self) -> u32 {
        self.ticks_per_unit
    }

    /// Whether the window is exactly one time unit long, so that a sample
    /// is the pulse count itself.
    pub open spec fn is_unit(&self) -> bool {
        self.spec_ticks() == self.spec_ticks_per_unit()
    }

    /// The frequency that a window with `count` pulses yields.
    pub open spec fn spec_frequency(&self, count: int) -> int {
        scaled(count, self.spec_ticks() as int, self.spec_ticks_per_unit() as int)
    }

    /// A window of `ticks` ticks where `ticks_per_unit` ticks make a time
    /// unit. Neither may be zero.
    pub fn new(ticks: u32, ticks_per_unit: u32) -> (window: Option<SampleWindow>)
        ensures
            window.is_some() == (ticks >= 1 && ticks_per_unit >= 1),
            window matches Some(w) ==> w.spec_ticks() == ticks && w.spec_ticks_per_unit()
                == ticks_per_unit,
    {
        if ticks >= 1 && ticks_per_unit >= 1 {
            Some(SampleWindow { ticks, ticks_per_unit })
        } else {
            None
        }
    }

    /// The window that samples on every tick and takes the tick as the time
    /// unit.
    pub fn every_tick() -> (window: SampleWindow)
        ensures
            window.spec_ticks() == 1,
            window.spec_ticks_per_unit() == 1,
    {
        SampleWindow { ticks: 1, ticks_per_unit: 1 }
    }

    /// Ticks per window.
    #[verifier::when_used_as_spec(spec_ticks)]
    pub fn ticks(&self) -> (ticks: u32)
        ensures
            ticks == self.spec_ticks(),
            ticks >= 1,
    {
        proof {
            use_type_invariant(self);
        }
        self.ticks
    }

    /// Ticks per time unit.
    #[verifier::when_used_as_spec(spec_ticks_per_unit)]
    pub fn ticks_per_unit(&self) -> (ticks: u32)
        ensures
            ticks == self.spec_ticks_per_unit(),
            ticks >= 1,
    {
        proof {
            use_type_invariant(self);
        }
        self.ticks_per_unit
    }

    /// Scales the pulse count of one window to pulses per time unit.
    pub fn frequency(&self, count: u32) -> (sample: u64)
        ensures
            sample == self.spec_frequency(count as int),
    {
        proof {
            use_type_invariant(self);
            lemma_scaled_fits(count, self.ticks, self.ticks_per_unit);
        }
        let pulses: u64 = count as u64;
        let per_unit: u64 = self.ticks_per_unit as u64;
        let per_window: u64 = self.ticks as u64;
        (pulses * per_unit) / per_window
    }
}

/// The product under the division fits in 64 bits, and so does the quotient.
pub proof fn lemma_scaled_fits(count: u32, window_ticks: u32, ticks_per_unit: u32)
    requires
        window_ticks >= 1,
    ensures
        0 <= count * ticks_per_unit <= u64::MAX,
        0 <= scaled(count as int, window_ticks as int, ticks_per_unit as int) <= count
            * ticks_per_unit,
{
    assert(0 <= count * ticks_per_unit <= 0xffff_ffff * 0xffff_ffff) by (nonlinear_arith)
        requires
            0 <= count <= 0xffff_ffff,
            0 <= ticks_per_unit <= 0xffff_ffff,
    ;
    let product = count * ticks_per_unit;
    assert(0 <= product / (window_ticks as int) <= product) by (nonlinear_arith)
        requires
            product >= 0,
            window_ticks >= 1,
    ;
}

/// A window of one time unit publishes the pulse count as it is.
pub proof fn lemma_unit_window_keeps_count(count: int, ticks: int)
    requires
        ticks >= 1,
    ensures
        scaled(count, ticks, ticks) == count,
{
    assert((count * ticks) / ticks == count) by (nonlinear_arith)
        requires
            ticks >= 1,
    ;
}

/// More pulses in a window never give a lower sample.
pub proof fn lemma_scaled_is_monotonic(fewer: int, more: int, window_ticks: int, ticks_per_unit: int)
    requires
        0 <= fewer <= more,
        window_ticks >= 1,
        ticks_per_unit >= 0,
    ensures
        scaled(fewer, window_ticks, ticks_per_unit) <= scaled(more, window_ticks, ticks_per_unit),
{
    assert(fewer * ticks_per_unit <= more * ticks_per_unit) by (nonlinear_arith)
        requires
            0 <= fewer <= more,
            ticks_per_unit >= 0,
    ;
    let a = fewer * ticks_per_unit;
    let b = more * ticks_per_unit;
    assert(a / window_ticks <= b / window_ticks) by (nonlinear_arith)
        requires
            a <= b,
            window_ticks >= 1,
    ;
}

} // verus!
