//! The bounded queue policy: a four-slot ring buffer between the sampling
//! interrupt and the foreground loop.
//!
//! The ring buffer itself is `heapless::spsc::Queue`. What this module adds
//! is the policy on a full queue, which is to drop the newest sample, and
//! the proof that the queue never holds more than its capacity.

use vstd::prelude::*;

verus! {

/// Number of samples the queue holds at most.
pub const QUEUE_CAPACITY: usize = 4;

/// The ring buffer of `heapless`, with `u8` indices and four slots.
///
/// Its fields are hidden from the verifier; all that is known of a value is
/// what the functions below state of `queue_contents`. The buffer keeps a
/// head and a tail index that only ever grow and wrap at 256; the slot of an
/// index is the index modulo four, which the wrap does not disturb.
#[verifier::external_body]
pub struct RawQueue {
    inner: heapless::spsc::Queue<u64, heapless::consts::U4, u8>,
}

/// The samples that a ring buffer holds, oldest first.
pub uninterp spec fn queue_contents(q: RawQueue) -> Seq<u64>;

/// `heapless::spsc::Queue::u8`: a new ring buffer, whose head and tail
/// indices are both zero, holds nothing.
#[verifier::external_body]
fn raw_new() -> (q: RawQueue)
    ensures
        queue_contents(q) == Seq::<u64>::empty(),
{
    RawQueue { inner: heapless::spsc::Queue::u8() }
}

/// `heapless::spsc::Queue::enqueue`: with fewer than four items held, the
/// item goes to the back and `Ok` comes back; with four held, nothing
/// changes and the item comes back in `Err`. It has no panicking path.
#[verifier::external_body]
fn raw_enqueue(q: &mut RawQueue, sample: u64) -> (r: Result<(), u64>)
    ensures
        r.is_ok() == has_room(queue_contents(*old(q))),
        r matches Err(back) ==> back == sample,
        queue_contents(*final(q)) == offer(queue_contents(*old(q)), sample),
    no_unwind
{
    q.inner.enqueue(sample)
}

/// `heapless::spsc::Queue::dequeue`: with an item held, the one at the
/// front leaves and is returned; with none, nothing changes and `None`
/// comes back. It has no panicking path.
#[verifier::external_body]
fn raw_dequeue(q: &mut RawQueue) -> (r: Option<u64>)
    ensures
        r == front(queue_contents(*old(q))),
        queue_contents(*final(q)) == behind_front(queue_contents(*old(q))),
    no_unwind
{
    q.inner.dequeue()
}

/// `heapless::spsc::Queue::len`: the number of items held, which is the
/// tail index minus the head index.
#[verifier::external_body]
fn raw_len(q: &RawQueue) -> (n: u8)
    ensures
        n as nat == queue_contents(*q).len(),
{
    q.inner.len()
}

/// Whether a queue that holds `held` takes one more sample.
pub open spec fn has_room(held: Seq<u64>) -> bool {
    held.len() < QUEUE_CAPACITY
}

/// The oldest sample held, if any.
pub open spec fn front(held: Seq<u64>) -> Option<u64> {
    if held.len() > 0 {
        Some(held[0])
    } else {
        None
    }
}

/// What stays once the oldest sample has been taken.
pub open spec fn behind_front(held: Seq<u64>) -> Seq<u64> {
    if held.len() > 0 {
        held.drop_first()
    } else {
        held
    }
}

/// What a queue holds after one more sample is offered: the sample goes to
/// the back while there is room, and is dropped when there is none.
pub open spec fn offer(held: Seq<u64>, sample: u64) -> Seq<u64> {
    if has_room(held) {
        held.push(sample)
    } else {
        held
    }
}

/// What a queue holds after `samples` are offered one after the other.
pub open spec fn offer_all(held: Seq<u64>, samples: Seq<u64>) -> Seq<u64>
    decreases samples.len(),
{
    if samples.len() == 0 {
        held
    } else {
        offer_all(offer(held, samples[0]), samples.drop_first())
    }
}

/// A fixed-capacity queue of frequency samples, oldest first.
pub struct SampleQueue {
    raw: RawQueue,
}

impl View for SampleQueue {
    type V = Seq<u64>;

    closed spec fn view(&self) -> Seq<u64> {
        queue_contents(self.raw)
    }
}

impl SampleQueue {
    #[verifier::type_invariant]
    spec fn within_capacity(self) -> bool {
        queue_contents(self.raw).len() <= QUEUE_CAPACITY
    }

    /// An empty queue.
    pub fn new() -> (q: SampleQueue)
        ensures
            q@ == Seq::<u64>::empty(),
    {
        SampleQueue { raw: raw_new() }
    }

    /// Offers a sample. Returns whether it was taken; a full queue drops it
    /// and keeps what it holds.
    pub fn enqueue(&mut self, sample: u64) -> (taken: bool)
        ensures
            final(self)@ == offer(old(self)@, sample),
            taken == has_room(old(self)@),
            final(self)@.len() <= QUEUE_CAPACITY,
    {
        proof {
            use_type_invariant(&*self);
        }
        let r = raw_enqueue(&mut self.raw, sample);
        r.is_ok()
    }

    /// Takes the oldest sample, if there is one.
    pub fn dequeue(&mut self) -> (sample: Option<u64>)
        ensures
            sample == front(old(self)@),
            final(self)@ == behind_front(old(self)@),
    {
        proof {
            use_type_invariant(&*self);
        }
        raw_dequeue(&mut self.raw)
    }

    /// Number of samples held.
    pub fn len(&self) -> (n: usize)
        ensures
            n == self@.len(),
            n <= QUEUE_CAPACITY,
    {
        proof {
            use_type_invariant(self);
        }
        let n: u8 = raw_len(&self.raw);
        n as usize
    }

    /// Whether the queue holds nothing.
    pub fn is_empty(&self) -> (empty: bool)
        ensures
            empty == (self@.len() == 0),
    {
        self.len() == 0
    }

    /// Whether the next sample offered would be dropped.
    pub fn is_full(&self) -> (full: bool)
        ensures
            full == (self@.len() == QUEUE_CAPACITY),
    {
        self.len() == QUEUE_CAPACITY
    }
}

/// The oldest samples of `samples`, as many as a queue has room for.
pub open spec fn oldest_that_fit(samples: Seq<u64>) -> Seq<u64> {
    if samples.len() <= QUEUE_CAPACITY {
        samples
    } else {
        samples.subrange(0, QUEUE_CAPACITY as int)
    }
}

/// Offering a run of samples to a queue within its capacity leaves what it
/// held, followed by the run, cut off at the capacity.
pub proof fn lemma_offer_all(held: Seq<u64>, samples: Seq<u64>)
    requires
        held.len() <= QUEUE_CAPACITY,
    ensures
        offer_all(held, samples) == oldest_that_fit(held + samples),
    decreases samples.len(),
{
    if samples.len() == 0 {
        assert(held + samples =~= held);
    } else {
        let next = offer(held, samples[0]);
        lemma_offer_all(next, samples.drop_first());
        if has_room(held) {
            assert(next + samples.drop_first() =~= held + samples);
        } else {
            assert(oldest_that_fit(next + samples.drop_first()) =~= held);
            assert(oldest_that_fit(held + samples) =~= held);
        }
    }
}

/// Drop-newest, stated of a whole run: when more samples are offered to an
/// empty queue than it has slots, exactly `QUEUE_CAPACITY` of them survive,
/// and they are the first ones offered, unchanged and in the order in which
/// they came. A shorter run survives whole.
pub proof fn lemma_overfull_queue_keeps_oldest(samples: Seq<u64>)
    ensures
        offer_all(Seq::empty(), samples) == oldest_that_fit(samples),
        samples.len() > QUEUE_CAPACITY ==> offer_all(Seq::empty(), samples).len()
            == QUEUE_CAPACITY,
        forall|i: int|
            0 <= i < samples.len() && i < QUEUE_CAPACITY ==> #[trigger] offer_all(
                Seq::empty(),
                samples,
            )[i] == samples[i],
{
    lemma_offer_all(Seq::empty(), samples);
    assert(Seq::<u64>::empty() + samples =~= samples);
}

} // verus!
