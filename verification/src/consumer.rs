//! The foreground consumer: takes samples from the channel and turns each
//! into a request for the renderer.

use vstd::prelude::*;
use crate::channel::Channel;
use crate::queue::front;

verus! {

/// What the renderer is to produce.
#[derive(Clone, Copy, Debug, PartialEq, Eq, Structural)]
pub enum DisplayMode {
    /// A line of text on the serial link.
    Text,
    /// Commands to the attached display.
    Graphic,
}

/// One call of the renderer.
#[derive(Clone, Copy, Debug, PartialEq, Eq, Structural)]
pub struct RenderRequest {
    /// The sample, in pulses per time unit.
    pub frequency: u64,
    /// The display mode chosen at boot.
    pub mode: DisplayMode,
    /// Level of the activity indicator; it changes with every sample.
    pub indicator: bool,
}

/// State of the foreground loop.
#[derive(Clone, Copy, Debug, PartialEq, Eq, Structural)]
pub struct ForegroundConsumer {
    /// The display mode, decided once at boot.
    pub mode: DisplayMode,
    /// Level of the activity indicator after the last sample.
    pub indicator: bool,
}

/// The display mode that the mode pin selects: graphic when it is high.
pub fn display_mode(pin_high: bool) -> (mode: DisplayMode)
    ensures
        mode == (if pin_high {
            DisplayMode::Graphic
        } else {
            DisplayMode::Text
        }),
{
    if pin_high {
        DisplayMode::Graphic
    } else {
        DisplayMode::Text
    }
}

impl ForegroundConsumer {
    /// The request that the `nth` sample after this state leads to,
    /// counting from zero, if that sample is `sample`.
    pub open spec fn request_for(&self, nth: int, sample: u64) -> RenderRequest {
        RenderRequest {
            frequency: sample,
            mode: self.mode,
            indicator: self.indicator_after(nth + 1),
        }
    }

    /// Level of the indicator after `samples` further samples.
    pub open spec fn indicator_after(&self, samples: int) -> bool {
        if samples % 2 == 0 {
            self.indicator
        } else {
            !self.indicator
        }
    }

    /// The requests that `samples` lead to, in their order.
    pub open spec fn requests_for(&self, samples: Seq<u64>) -> Seq<RenderRequest> {
        Seq::new(samples.len(), |i: int| self.request_for(i, samples[i]))
    }

    /// The consumer at boot: the indicator is off.
    pub fn new(mode: DisplayMode) -> (consumer: ForegroundConsumer)
        ensures
            consumer.mode == mode,
            !consumer.indicator,
    {
        ForegroundConsumer { mode, indicator: false }
    }

    /// Turns one sample into a request and flips the indicator.
    pub fn forward(&mut self, sample: u64) -> (request: RenderRequest)
        ensures
            request == old(self).request_for(0, sample),
            final(self).mode == old(self).mode,
            final(self).indicator == !old(self).indicator,
    {
        self.indicator = !self.indicator;
        RenderRequest { frequency: sample, mode: self.mode, indicator: self.indicator }
    }

    /// After a wake-up: takes the next sample, if there is one, and turns
    /// it into a request. With nothing pending, nothing changes.
    pub fn on_wake(&mut self, channel: &mut Channel) -> (request: Option<RenderRequest>)
        ensures
            old(channel).drains_to(*final(channel)),
            final(self).mode == old(self).mode,
            match front(old(channel).pending()) {
                Some(sample) => request == Some(old(self).request_for(0, sample))
                    && final(self).indicator == !old(self).indicator,
                None => request.is_none() && final(self).indicator == old(self).indicator,
            },
    {
        match channel.take() {
            Some(sample) => Some(self.forward(sample)),
            None => None,
        }
    }

    /// After a wake-up: takes everything that is pending, oldest first, and
    /// turns each sample into a request.
    pub fn drain(&mut self, channel: &mut Channel) -> (requests: Vec<RenderRequest>)
        ensures
            requests@ == old(self).requests_for(old(channel).pending()),
            final(channel).pending() == Seq::<u64>::empty(),
            final(channel).spec_policy() == old(channel).spec_policy(),
            final(self).mode == old(self).mode,
            final(self).indicator == old(self).indicator_after(
                old(channel).pending().len() as int,
            ),
    {
        let ghost pending = channel.pending();
        let ghost start = *self;
        let mut requests: Vec<RenderRequest> = Vec::new();
        loop
            invariant
                requests@.len() <= pending.len(),
                channel.pending() == pending.skip(requests@.len() as int),
                channel.spec_policy() == old(channel).spec_policy(),
                self.mode == start.mode,
                self.indicator == start.indicator_after(requests@.len() as int),
                requests@ == start.requests_for(pending.take(requests@.len() as int)),
            ensures
                requests@ == start.requests_for(pending),
                channel.pending() == Seq::<u64>::empty(),
                channel.spec_policy() == old(channel).spec_policy(),
                self.mode == start.mode,
                self.indicator == start.indicator_after(pending.len() as int),
            decreases channel.pending().len(),
        {
            let ghost done = requests@.len() as int;
            match channel.take() {
                Some(sample) => {
                    let request = self.forward(sample);
                    requests.push(request);
                    proof {
                        assert(sample == pending[done]);
                        assert(channel.pending() =~= pending.skip(done + 1));
                        assert(request == start.request_for(done, sample));
                        assert(requests@ =~= start.requests_for(pending.take(done + 1)));
                    }
                },
                None => {
                    proof {
                        assert(pending.take(done) =~= pending);
                    }
                    break ;
                },
            }
        }
        requests
    }
}

} // verus!
