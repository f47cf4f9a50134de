//! The sample scheduler's clock: it counts the firings of the sampling timer
//! and says on which of them a window ends.

use vstd::prelude::*;
use crate::sample::SampleWindow;

verus! {

/// The sample tick after one more firing. It never decreases, and below the
/// limit of its type it grows by one.
pub open spec fn tick_after(tick: u64) -> u64 {
    if tick < u64::MAX {
        (tick + 1) as u64
    } else {
        tick
    }
}

/// Whether the firing that follows `phase` earlier ones ends a window of
/// `window_ticks` ticks.
pub open spec fn ends_window(phase: int, window_ticks: int) -> bool {
    phase + 1 == window_ticks
}

/// The number of firings since the last window end, after one more firing.
pub open spec fn phase_after(phase: int, window_ticks: int) -> int {
    if ends_window(phase, window_ticks) {
        0
    } else {
        phase + 1
    }
}

/// Number of windows that end during `firings` further firings.
pub open spec fn windows_ended(phase: int, window_ticks: int, firings: nat) -> int
    decreases firings,
{
    if firings == 0 {
        0
    } else {
        (if ends_window(phase, window_ticks) {
            1int
        } else {
            0int
        }) + windows_ended(phase_after(phase, window_ticks), window_ticks, (firings - 1) as nat)
    }
}

/// The phase after `firings` further firings.
pub open spec fn phase_after_firings(phase: int, window_ticks: int, firings: nat) -> int
    decreases firings,
{
    if firings == 0 {
        phase
    } else {
        phase_after_firings(phase_after(phase, window_ticks), window_ticks, (firings - 1) as nat)
    }
}

/// Tick counter and decimation state of the sampling interrupt.
#[derive(Clone, Copy, Debug)]
pub struct SampleScheduler {
    window: SampleWindow,
    tick: u64,
    phase: u32,
}

impl SampleScheduler {
    #[verifier::type_invariant]
    spec fn phase_in_window(self) -> bool {
        self.phase < self.window.spec_ticks()
    }

    /// The window this scheduler samples by.
    pub closed spec fn spec_window(&self) -> SampleWindow {
        self.window
    }

    /// Firings since boot.
    pub closed spec fn spec_tick(&self) -> u64 {
        self.tick
    }

    /// Firings since the last window end; always below the window's ticks.
    pub closed spec fn spec_phase(&self) -> u32 {
        self.phase
    }

    /// Whether the next firing ends a window.
    pub open spec fn is_due(&self) -> bool {
        ends_window(self.spec_phase() as int, self.spec_window().spec_ticks() as int)
    }

    /// Whether `next` is this scheduler after one firing.
    pub open spec fn ticks_to(&self, next: SampleScheduler) -> bool {
        &&& next.spec_window() == self.spec_window()
        &&& next.spec_tick() == tick_after(self.spec_tick())
        &&& next.spec_phase() == phase_after(
            self.spec_phase() as int,
            self.spec_window().spec_ticks() as int,
        )
    }

    /// A scheduler at boot: no firing yet.
    pub fn new(window: SampleWindow) -> (s: SampleScheduler)
        ensures
            s.spec_window() == window,
            s.spec_tick() == 0,
            s.spec_phase() == 0,
    {
        let ticks: u32 = window.ticks();
        assert(0 < ticks);
        SampleScheduler { window, tick: 0, phase: 0 }
    }

    /// The window this scheduler samples by.
    #[verifier::when_used_as_spec(spec_window)]
    pub fn window(&self) -> (window: SampleWindow)
        ensures
            window == self.spec_window(),
    {
        self.window
    }

    /// Firings since boot.
    #[verifier::when_used_as_spec(spec_tick)]
    pub fn tick(&self) -> (tick: u64)
        ensures
            tick == self.spec_tick(),
    {
        self.tick
    }

    /// Firings since the last window end.
    #[verifier::when_used_as_spec(spec_phase)]
    pub fn phase(&self) -> (phase: u32)
        ensures
            phase == self.spec_phase(),
            phase < self.spec_window().spec_ticks(),
    {
        proof {
            use_type_invariant(self);
        }
        self.phase
    }

    /// One firing of the sampling timer. Returns whether a window ends with
    /// it, which is the case on every `ticks`-th firing.
    pub fn on_tick(&mut self) -> (due: bool)
        ensures
            old(self).ticks_to(*final(self)),
            due == old(self).is_due(),
    {
        proof {
            use_type_invariant(&*self);
        }
        let ticks: u32 = self.window.ticks();
        if self.tick < u64::MAX {
            self.tick = self.tick + 1;
        }
        if self.phase + 1 == ticks {
            self.phase = 0;
            true
        } else {
            self.phase = self.phase + 1;
            false
        }
    }
}

/// Decimation is exact: of any `window_ticks` firings in a row exactly one
/// ends a window, and after them the phase is what it was.
pub proof fn lemma_one_window_per_period(phase: int, window_ticks: int)
    requires
        0 <= phase < window_ticks,
    ensures
        windows_ended(phase, window_ticks, window_ticks as nat) == 1,
        phase_after_firings(phase, window_ticks, window_ticks as nat) == phase,
{
    let first = (window_ticks - 1 - phase) as nat;
    lemma_quiet_firings(phase, window_ticks, first);
    lemma_firings_split(phase, window_ticks, first, (phase + 1) as nat);
    assert(ends_window(window_ticks - 1, window_ticks));
    assert(phase_after(window_ticks - 1, window_ticks) == 0);
    lemma_quiet_firings(0, window_ticks, phase as nat);
    assert(windows_ended(window_ticks - 1, window_ticks, (phase + 1) as nat) == 1);
    assert(phase_after_firings(window_ticks - 1, window_ticks, (phase + 1) as nat) == phase);
}

/// Firings that stay short of the window's end end no window.
pub proof fn lemma_quiet_firings(phase: int, window_ticks: int, firings: nat)
    requires
        0 <= phase,
        phase + firings < window_ticks,
    ensures
        windows_ended(phase, window_ticks, firings) == 0,
        phase_after_firings(phase, window_ticks, firings) == phase + firings,
    decreases firings,
{
    if firings > 0 {
        lemma_quiet_firings(phase + 1, window_ticks, (firings - 1) as nat);
    }
}

/// Firings in a row can be counted in two parts.
pub proof fn lemma_firings_split(phase: int, window_ticks: int, first: nat, second: nat)
    ensures
        windows_ended(phase, window_ticks, first + second) == windows_ended(
            phase,
            window_ticks,
            first,
        ) + windows_ended(
            phase_after_firings(phase, window_ticks, first),
            window_ticks,
            second,
        ),
        phase_after_firings(phase, window_ticks, first + second) == phase_after_firings(
            phase_after_firings(phase, window_ticks, first),
            window_ticks,
            second,
        ),
    decreases first,
{
    if first > 0 {
        lemma_firings_split(
            phase_after(phase, window_ticks),
            window_ticks,
            (first - 1) as nat,
            second,
        );
        assert((first - 1) as nat + second == (first + second - 1) as nat);
    }
}

} // verus!
