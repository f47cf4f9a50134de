//! The overwrite-latest policy: one shared slot that always holds the newest
//! sample, and a reader that tells by the tick stored with it whether it has
//! seen that sample before.

use vstd::prelude::*;

verus! {

/// The slot and the reader's bookmark.
///
/// `tick` and `value` are written by the producer only, `seen` by the
/// consumer only.
#[derive(Clone, Copy, Debug, PartialEq, Eq, Structural)]
pub struct LatestSlot {
    /// Sample tick at which `value` was published; 0 before the first one.
    pub tick: u64,
    /// The newest sample.
    pub value: u64,
    /// Tick of the sample that the consumer took last.
    pub seen: u64,
}

impl LatestSlot {
    /// The sample that the consumer has not taken yet, if there is one.
    pub open spec fn pending(&self) -> Option<u64> {
        if self.tick != self.seen {
            Some(self.value)
        } else {
            None
        }
    }

    /// The slot after the producer has stored `value` under `tick`.
    pub open spec fn published(&self, tick: u64, value: u64) -> LatestSlot {
        LatestSlot { tick, value, seen: self.seen }
    }

    /// The slot after the consumer has looked at it.
    pub open spec fn polled(&self) -> LatestSlot {
        LatestSlot { tick: self.tick, value: self.value, seen: self.tick }
    }

    /// What `polls` polls in a row return when nothing is published in
    /// between.
    pub open spec fn poll_results(&self, polls: nat) -> Seq<Option<u64>>
        decreases polls,
    {
        if polls == 0 {
            Seq::empty()
        } else {
            seq![self.pending()] + self.polled().poll_results((polls - 1) as nat)
        }
    }

    /// Whether the reader's bookmark is at or behind the slot's tick, as it
    /// is whenever the producer publishes under ticks that never decrease.
    pub open spec fn in_order(&self) -> bool {
        self.seen <= self.tick
    }

    /// A slot in which nothing was published yet.
    pub fn new() -> (slot: LatestSlot)
        ensures
            slot.tick == 0,
            slot.value == 0,
            slot.seen == 0,
            slot.pending().is_none(),
    {
        LatestSlot { tick: 0, value: 0, seen: 0 }
    }

    /// Producer side: stores the newest sample, whatever the slot held.
    pub fn publish(&mut self, tick: u64, value: u64)
        ensures
            *final(self) == old(self).published(tick, value),
    {
        self.tick = tick;
        self.value = value;
    }

    /// Consumer side: takes the sample if it is one not taken before.
    pub fn poll(&mut self) -> (sample: Option<u64>)
        ensures
            sample == old(self).pending(),
            *final(self) == old(self).polled(),
    {
        if self.tick != self.seen {
            self.seen = self.tick;
            Some(self.value)
        } else {
            None
        }
    }

    /// Consumer side: looks at the sample without taking it.
    pub fn peek(&self) -> (sample: Option<u64>)
        ensures
            sample == self.pending(),
    {
        if self.tick != self.seen {
            Some(self.value)
        } else {
            None
        }
    }
}

/// Reading again without a new publish never yields a second value: of any
/// number of polls in a row only the first can return a sample, which is
/// then the one stored, and every later one returns nothing.
pub proof fn lemma_repeated_poll(slot: LatestSlot, polls: nat)
    ensures
        slot.poll_results(polls).len() == polls,
        polls > 0 ==> slot.poll_results(polls)[0] == slot.pending(),
        forall|i: int| 1 <= i < polls ==> (#[trigger] slot.poll_results(polls)[i]).is_none(),
        forall|i: int|
            0 <= i < polls ==> (#[trigger] slot.poll_results(polls)[i] matches Some(v) ==> v
                == slot.value),
    decreases polls,
{
    if polls > 0 {
        let rest = slot.polled().poll_results((polls - 1) as nat);
        lemma_repeated_poll(slot.polled(), (polls - 1) as nat);
        lemma_polled_is_quiet(slot.polled(), (polls - 1) as nat);
        assert forall|i: int| 1 <= i < polls implies (#[trigger] slot.poll_results(
            polls,
        )[i]).is_none() by {
            assert(slot.poll_results(polls)[i] == rest[i - 1]);
        }
    }
}

/// Once the consumer is up to date, every further poll returns nothing and
/// leaves the slot as it is.
pub proof fn lemma_polled_is_quiet(slot: LatestSlot, polls: nat)
    requires
        slot.pending().is_none(),
    ensures
        slot.polled() == slot,
        slot.poll_results(polls).len() == polls,
        forall|i: int| 0 <= i < polls ==> (#[trigger] slot.poll_results(polls)[i]).is_none(),
    decreases polls,
{
    if polls > 0 {
        let rest = slot.polled().poll_results((polls - 1) as nat);
        lemma_polled_is_quiet(slot.polled(), (polls - 1) as nat);
        assert forall|i: int| 0 <= i < polls implies (#[trigger] slot.poll_results(
            polls,
        )[i]).is_none() by {
            if i > 0 {
                assert(slot.poll_results(polls)[i] == rest[i - 1]);
            }
        }
    }
}

/// A sample published under a tick later than the slot's is always
/// there for the next poll, whether or not the one before it was taken;
/// and taking it keeps the bookmark in order.
pub proof fn lemma_later_tick_is_seen(slot: LatestSlot, tick: u64, value: u64)
    requires
        slot.in_order(),
        slot.tick < tick,
    ensures
        slot.published(tick, value).pending() == Some(value),
        slot.published(tick, value).in_order(),
        slot.published(tick, value).polled().in_order(),
        slot.polled().in_order(),
{
}

} // verus!
