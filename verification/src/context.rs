//! The sampling context: everything the two interrupt handlers and the
//! foreground loop share, as one owned value.
//!
//! The handlers own the hardware. Each of them calls in here at the points
//! where something is decided: the overflow handler once per wrap, the
//! sampling handler on every tick, and, on a tick that ends a window,
//! around its read and its reset of the counter.

use vstd::prelude::*;
use crate::channel::{Channel, ChannelPolicy};
use crate::latest::lemma_later_tick_is_seen;
use crate::counter::{PulseCounter, RESET_PRIME};
use crate::overflow::{wraps_plus, OverflowAccumulator};
use crate::sample::{compose_count, pulse_count, reset_sequence, SampleWindow};
use crate::scheduler::SampleScheduler;

verus! {

/// What the sampling handler has to do on this tick.
#[derive(Clone, Copy, Debug, PartialEq, Eq, Structural)]
pub enum TickAction {
    /// No window ends; return.
    Idle,
    /// A window ends. `wraps` is the overflow count, read just now; the
    /// counter is to be read next.
    Sample {
        /// The overflow count of the window that ends.
        wraps: u16,
    },
}

/// The sample of one window and the writes that reset the counter.
#[derive(Clone, Copy, Debug)]
pub struct Activation {
    /// The frequency sample.
    pub sample: u64,
    /// Values for the count register, to be written in this order.
    pub reset_writes: [u16; 2],
}

/// Scheduler, overflow accumulator and channel.
pub struct SamplingContext {
    /// Tick counter and decimation.
    pub scheduler: SampleScheduler,
    /// Wraps since the last sample.
    pub overflow: OverflowAccumulator,
    /// The way to the foreground loop.
    pub channel: Channel,
}

impl SamplingContext {
    /// The sample that a window yields in which the overflow count was
    /// `wraps` and the counter showed `raw`.
    pub open spec fn sample_of(&self, wraps: u16, raw: u16) -> int {
        self.scheduler.spec_window().spec_frequency(pulse_count(wraps as int, raw as int))
    }

    /// Whether the channel is in step with the scheduler: under the
    /// overwrite-latest policy the slot's tick is not ahead of the
    /// scheduler's, nor the reader's bookmark ahead of the slot's tick.
    pub open spec fn in_step(&self) -> bool {
        self.channel matches Channel::Latest(slot) ==> slot.in_order() && slot.tick
            <= self.scheduler.spec_tick()
    }

    /// Whether `next` is this context after it has published `sample`.
    pub open spec fn commits_to(&self, sample: u64, next: SamplingContext) -> bool {
        &&& next.scheduler == self.scheduler
        &&& next.overflow.wraps == 0
        &&& self.channel.publishes_to(self.scheduler.spec_tick(), sample, next.channel)
    }

    /// The context at boot.
    pub fn new(window: SampleWindow, policy: ChannelPolicy) -> (ctx: SamplingContext)
        ensures
            ctx.scheduler.spec_window() == window,
            ctx.scheduler.spec_tick() == 0,
            ctx.scheduler.spec_phase() == 0,
            ctx.overflow.wraps == 0,
            ctx.channel.spec_policy() == policy,
            ctx.channel.is_unused(),
            ctx.in_step(),
    {
        SamplingContext {
            scheduler: SampleScheduler::new(window),
            overflow: OverflowAccumulator::new(),
            channel: Channel::new(policy),
        }
    }

    /// The overflow interrupt, once the handler has cleared the pending
    /// flag: one more wrap, whatever the count was.
    pub fn on_overflow(&mut self)
        ensures
            final(self).overflow.wraps == wraps_plus(old(self).overflow.wraps as int, 1),
            final(self).scheduler == old(self).scheduler,
            final(self).channel == old(self).channel,
            old(self).in_step() ==> final(self).in_step(),
    {
        self.overflow.record_wrap();
    }

    /// The sampling interrupt. On a tick that ends a window the overflow
    /// count is read here, before the handler reads the counter.
    pub fn on_tick(&mut self) -> (action: TickAction)
        ensures
            old(self).scheduler.ticks_to(final(self).scheduler),
            final(self).overflow == old(self).overflow,
            final(self).channel == old(self).channel,
            action == (if old(self).scheduler.is_due() {
                TickAction::Sample { wraps: old(self).overflow.wraps }
            } else {
                TickAction::Idle
            }),
            old(self).in_step() ==> final(self).in_step(),
    {
        if self.scheduler.on_tick() {
            TickAction::Sample { wraps: self.overflow.count() }
        } else {
            TickAction::Idle
        }
    }

    /// Computes the sample from the two reads, and names the writes that
    /// reset the counter. Nothing is changed yet.
    pub fn plan(&self, wraps: u16, raw: u16) -> (activation: Activation)
        ensures
            activation.sample == self.sample_of(wraps, raw),
            activation.reset_writes@ == seq![RESET_PRIME, 0u16],
    {
        let count: u32 = compose_count(wraps, raw);
        let sample: u64 = self.scheduler.window().frequency(count);
        Activation { sample, reset_writes: reset_sequence() }
    }

    /// Ends the activation once the counter is reset: the overflow count
    /// goes back to zero, and then the sample is published under the
    /// current tick.
    pub fn commit(&mut self, sample: u64)
        ensures
            old(self).commits_to(sample, *final(self)),
            old(self).in_step() ==> final(self).in_step(),
    {
        self.overflow.reset();
        let tick: u64 = self.scheduler.tick();
        self.channel.publish(tick, sample);
    }

    /// One whole tick against a counter held in software: where a window
    /// ends, the overflow count is read, then the counter; the counter is
    /// reset by its two writes, the overflow count cleared and the sample
    /// published. Returns the sample, or `None` on a tick that ends no
    /// window, which changes nothing but the scheduler.
    pub fn run_tick(&mut self, counter: &mut PulseCounter) -> (sample: Option<u64>)
        ensures
            old(self).scheduler.ticks_to(final(self).scheduler),
            !old(self).scheduler.is_due() ==> {
                &&& sample.is_none()
                &&& *final(counter) == *old(counter)
                &&& final(self).overflow == old(self).overflow
                &&& final(self).channel == old(self).channel
            },
            old(self).scheduler.is_due() ==> {
                &&& sample matches Some(s)
                &&& s == old(self).sample_of(old(self).overflow.wraps, old(counter).value)
                &&& *final(counter) == old(counter).after_reset()
                &&& final(self).overflow.wraps == 0
                &&& old(self).channel.publishes_to(
                    final(self).scheduler.spec_tick(),
                    s,
                    final(self).channel,
                )
            },
            old(self).in_step() ==> final(self).in_step(),
    {
        match self.on_tick() {
            TickAction::Idle => None,
            TickAction::Sample { wraps } => {
                let raw: u16 = counter.read();
                let activation = self.plan(wraps, raw);
                counter.write(activation.reset_writes[0]);
                counter.write(activation.reset_writes[1]);
                self.commit(activation.sample);
                Some(activation.sample)
            },
        }
    }

    /// Foreground side: takes the next pending sample, if there is one.
    pub fn take(&mut self) -> (sample: Option<u64>)
        ensures
            sample == crate::queue::front(old(self).channel.pending()),
            old(self).channel.drains_to(final(self).channel),
            final(self).scheduler == old(self).scheduler,
            final(self).overflow == old(self).overflow,
            old(self).in_step() ==> final(self).in_step(),
    {
        self.channel.take()
    }
}

/// Under the overwrite-latest policy the sample of a window that ends is
/// always there for the foreground loop: as long as the tick counter has
/// not reached the limit of its type, the tick that ends the window is later
/// than any the slot has held, so the sample published under it is pending
/// whether or not the one before it was taken.
pub proof fn lemma_window_end_is_seen(
    before: SamplingContext,
    ticked: SampleScheduler,
    sample: u64,
    after: Channel,
)
    requires
        before.in_step(),
        before.channel.spec_policy() == ChannelPolicy::OverwriteLatest,
        before.scheduler.spec_tick() < u64::MAX,
        before.scheduler.ticks_to(ticked),
        before.channel.publishes_to(ticked.spec_tick(), sample, after),
    ensures
        after.pending() == seq![sample],
{
    match before.channel {
        Channel::Latest(slot) => {
            lemma_later_tick_is_seen(slot, ticked.spec_tick(), sample);
        },
        Channel::Queue(_) => {},
    }
}

} // verus!
