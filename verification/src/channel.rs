//! The path from the sampling interrupt to the foreground loop.
//!
//! There is one producer and one consumer, and the producer never waits. A
//! channel follows one of two policies, chosen when it is made.

use vstd::prelude::*;
use crate::latest::LatestSlot;
use crate::queue::{behind_front, front, offer, SampleQueue};

verus! {

/// How a channel treats a sample that arrives before the last was taken.
#[derive(Clone, Copy, Debug, PartialEq, Eq, Structural)]
pub enum ChannelPolicy {
    /// One slot; a new sample replaces the one not yet taken.
    OverwriteLatest,
    /// A short queue; a sample that finds it full is dropped.
    BoundedQueue,
}

/// A channel of one of the two policies.
pub enum Channel {
    /// The overwrite-latest slot.
    Latest(LatestSlot),
    /// The bounded queue.
    Queue(SampleQueue),
}

/// A sequence of the one sample, or of none.
pub open spec fn as_seq(sample: Option<u64>) -> Seq<u64> {
    match sample {
        Some(v) => seq![v],
        None => Seq::empty(),
    }
}

impl Channel {
    /// The policy this channel follows.
    pub open spec fn spec_policy(&self) -> ChannelPolicy {
        match self {
            Channel::Latest(_) => ChannelPolicy::OverwriteLatest,
            Channel::Queue(_) => ChannelPolicy::BoundedQueue,
        }
    }

    /// The samples that the consumer would get, in the order in which it
    /// would get them, if nothing more were published.
    pub open spec fn pending(&self) -> Seq<u64> {
        match self {
            Channel::Latest(slot) => as_seq(slot.pending()),
            Channel::Queue(q) => q@,
        }
    }

    /// The samples pending once `sample` has been published under `tick`.
    pub open spec fn pending_after_publish(&self, tick: u64, sample: u64) -> Seq<u64> {
        match self {
            Channel::Latest(slot) => as_seq(slot.published(tick, sample).pending()),
            Channel::Queue(q) => offer(q@, sample),
        }
    }

    /// Whether nothing was ever published into this channel.
    pub open spec fn is_unused(&self) -> bool {
        &&& self.pending() == Seq::<u64>::empty()
        &&& (*self matches Channel::Latest(slot) ==> slot == LatestSlot {
            tick: 0,
            value: 0,
            seen: 0,
        })
    }

    /// Whether `next` is this channel after `sample` was published under
    /// `tick`.
    pub open spec fn publishes_to(&self, tick: u64, sample: u64, next: Channel) -> bool {
        &&& next.spec_policy() == self.spec_policy()
        &&& next.pending() == self.pending_after_publish(tick, sample)
        &&& (*self matches Channel::Latest(slot) ==> next == Channel::Latest(
            slot.published(tick, sample),
        ))
    }

    /// Whether `next` is this channel after the consumer took what was
    /// next.
    pub open spec fn drains_to(&self, next: Channel) -> bool {
        &&& next.spec_policy() == self.spec_policy()
        &&& next.pending() == behind_front(self.pending())
        &&& (*self matches Channel::Latest(slot) ==> next == Channel::Latest(slot.polled()))
    }

    /// An empty channel of the given policy.
    pub fn new(policy: ChannelPolicy) -> (channel: Channel)
        ensures
            channel.spec_policy() == policy,
            channel.is_unused(),
    {
        match policy {
            ChannelPolicy::OverwriteLatest => Channel::Latest(LatestSlot::new()),
            ChannelPolicy::BoundedQueue => Channel::Queue(SampleQueue::new()),
        }
    }

    /// The policy this channel follows.
    #[verifier::when_used_as_spec(spec_policy)]
    pub fn policy(&self) -> (policy: ChannelPolicy)
        ensures
            policy == self.spec_policy(),
    {
        match self {
            Channel::Latest(_) => ChannelPolicy::OverwriteLatest,
            Channel::Queue(_) => ChannelPolicy::BoundedQueue,
        }
    }

    /// Producer side: hands over the sample of the window that ended at
    /// `tick`. It returns at once under either policy; a full queue drops
    /// the sample without a word.
    pub fn publish(&mut self, tick: u64, sample: u64)
        ensures
            old(self).publishes_to(tick, sample, *final(self)),
    {
        match self {
            Channel::Latest(slot) => {
                slot.publish(tick, sample);
            },
            Channel::Queue(q) => {
                let _ = q.enqueue(sample);
            },
        }
    }

    /// Consumer side: takes the next pending sample, if there is one.
    pub fn take(&mut self) -> (sample: Option<u64>)
        ensures
            sample == front(old(self).pending()),
            old(self).drains_to(*final(self)),
    {
        match self {
            Channel::Latest(slot) => {
                let sample = slot.poll();
                assert(behind_front(as_seq(sample)) =~= Seq::<u64>::empty());
                sample
            },
            Channel::Queue(q) => q.dequeue(),
        }
    }
}

} // verus!
