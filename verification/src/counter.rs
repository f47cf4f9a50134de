//! The pulse counter: a sixteen-bit hardware counter clocked by the signal.

use vstd::prelude::*;

verus! {

/// Number of distinct values of the counter; it runs from 0 to `MODULUS - 1`
/// and then wraps to 0.
pub const MODULUS: u32 = 65536;

/// Largest value the counter holds, which is also its auto-reload value.
pub const COUNTER_MAX: u16 = 65535;

/// First value of the reset sequence. Any nonzero value serves.
pub const RESET_PRIME: u16 = 1;

/// Value of the counter after `edges` further edges, starting from `start`.
pub open spec fn value_after(start: int, edges: int) -> int {
    (start + edges) % (MODULUS as int)
}

/// Number of wraps that `edges` further edges cause, starting from `start`.
pub open spec fn wraps_during(start: int, edges: int) -> int {
    (start + edges) / (MODULUS as int)
}

/// Register settings that put the timer into external clock mode.
#[derive(Clone, Copy, Debug, PartialEq, Eq, Structural)]
pub struct CounterConfig {
    /// Slave mode selection.
    pub slave_mode: u8,
    /// External trigger filter; 0 is no filtering.
    pub filter: u8,
    /// `true` counts falling edges, `false` rising edges.
    pub inverted: bool,
    /// External trigger prescaler; 0 divides by one.
    pub prescaler: u8,
    /// Trigger selection.
    pub trigger: u8,
    /// Auto-reload value, one below the wrap modulus.
    pub auto_reload: u16,
    /// Only a wrap raises the update flag, not a software write.
    pub update_on_overflow_only: bool,
}

impl CounterConfig {
    /// Slave mode "external clock mode 1".
    pub const EXTERNAL_CLOCK_MODE_1: u8 = 7;

    /// Trigger source "external trigger input".
    pub const EXTERNAL_TRIGGER_INPUT: u8 = 7;

    /// The one configuration this design uses: every rising edge of the
    /// external pin counts, unfiltered and undivided, and the counter wraps
    /// at its full width.
    pub fn external_clock() -> (cfg: CounterConfig)
        ensures
            cfg.slave_mode == Self::EXTERNAL_CLOCK_MODE_1,
            cfg.filter == 0,
            !cfg.inverted,
            cfg.prescaler == 0,
            cfg.trigger == Self::EXTERNAL_TRIGGER_INPUT,
            cfg.auto_reload == COUNTER_MAX,
            cfg.auto_reload + 1 == MODULUS,
            cfg.update_on_overflow_only,
    {
        CounterConfig {
            slave_mode: Self::EXTERNAL_CLOCK_MODE_1,
            filter: 0,
            inverted: false,
            prescaler: 0,
            trigger: Self::EXTERNAL_TRIGGER_INPUT,
            auto_reload: COUNTER_MAX,
            update_on_overflow_only: true,
        }
    }
}

/// The counter as software sees it: its current value and the pending flag
/// that a wrap raises.
///
/// On the target this state lives in the timer peripheral. The type stands
/// for it wherever the pipeline is exercised without hardware.
#[derive(Clone, Copy, Debug, PartialEq, Eq, Structural)]
pub struct PulseCounter {
    /// Current count, always below `MODULUS`.
    pub value: u16,
    /// Set by a wrap; stays set until software clears it.
    pub overflow_pending: bool,
}

impl PulseCounter {
    /// The counter after one edge: one higher, or wrapped to zero with the
    /// flag raised.
    pub open spec fn after_edge(&self) -> PulseCounter {
        PulseCounter {
            value: value_after(self.value as int, 1) as u16,
            overflow_pending: self.overflow_pending || wraps_during(self.value as int, 1) == 1,
        }
    }

    /// The counter after `edges` edges in a row.
    pub open spec fn after_edges(&self, edges: nat) -> PulseCounter
        decreases edges,
    {
        if edges == 0 {
            *self
        } else {
            self.after_edge().after_edges((edges - 1) as nat)
        }
    }

    /// The counter after a software write of `raw`.
    pub open spec fn after_write(&self, raw: u16) -> PulseCounter {
        PulseCounter { value: raw, overflow_pending: self.overflow_pending }
    }

    /// The counter after the two writes of the reset sequence.
    pub open spec fn after_reset(&self) -> PulseCounter {
        self.after_write(RESET_PRIME).after_write(0)
    }

    /// A counter that has just been started: zero, nothing pending.
    pub fn new() -> (c: PulseCounter)
        ensures
            c.value == 0,
            !c.overflow_pending,
    {
        PulseCounter { value: 0, overflow_pending: false }
    }

    /// One qualifying edge of the signal.
    pub fn edge(&mut self)
        ensures
            *final(self) == old(self).after_edge(),
    {
        if self.value == COUNTER_MAX {
            self.value = 0;
            self.overflow_pending = true;
        } else {
            self.value = self.value + 1;
        }
    }

    /// Reads the count.
    pub fn read(&self) -> (raw: u16)
        ensures
            raw == self.value,
    {
        self.value
    }

    /// A software write to the count register. The pending flag is untouched.
    pub fn write(&mut self, raw: u16)
        ensures
            *final(self) == old(self).after_write(raw),
    {
        self.value = raw;
    }

    /// Clears the pending flag, as the overflow handler must before it returns.
    pub fn clear_overflow(&mut self)
        ensures
            final(self).value == old(self).value,
            !final(self).overflow_pending,
    {
        self.overflow_pending = false;
    }

    /// The two-phase reset: a nonzero write, then the write of zero.
    pub fn reset(&mut self)
        ensures
            *final(self) == old(self).after_reset(),
            final(self).value == 0,
            final(self).overflow_pending == old(self).overflow_pending,
    {
        self.write(RESET_PRIME);
        self.write(0);
    }
}

/// Edges add up: the value after a run of edges is the start plus their
/// number, reduced by the modulus, and the flag is raised if the run
/// wrapped at least once.
pub proof fn lemma_after_edges(counter: PulseCounter, edges: nat)
    ensures
        counter.after_edges(edges).value == value_after(counter.value as int, edges as int),
        counter.after_edges(edges).overflow_pending == (counter.overflow_pending
            || wraps_during(counter.value as int, edges as int) >= 1),
    decreases edges,
{
    if edges > 0 {
        lemma_after_edges(counter.after_edge(), (edges - 1) as nat);
    }
}

/// The reset leaves zero behind wherever a stray edge falls: before the
/// first write, between the two writes, or not at all. What the counter
/// shows afterwards is therefore the number of edges since the reset
/// completed, reduced by the modulus, and nothing of what came before.
pub proof fn lemma_reset_starts_clean(counter: PulseCounter, later: nat)
    ensures
        counter.after_reset().value == 0,
        counter.after_edge().after_reset().value == 0,
        counter.after_write(RESET_PRIME).after_edge().after_write(0).value == 0,
        counter.after_reset().after_edges(later).value == value_after(0, later as int),
        counter.after_edge().after_reset().after_edges(later).value == value_after(
            0,
            later as int,
        ),
        counter.after_write(RESET_PRIME).after_edge().after_write(0).after_edges(later).value
            == value_after(0, later as int),
        later < MODULUS ==> value_after(0, later as int) == later,
{
    lemma_after_edges(counter.after_reset(), later);
    lemma_after_edges(counter.after_edge().after_reset(), later);
    lemma_after_edges(counter.after_write(RESET_PRIME).after_edge().after_write(0), later);
}

} // verus!
