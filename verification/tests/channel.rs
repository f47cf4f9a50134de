use freqmeter::channel::{Channel, ChannelPolicy};
use freqmeter::latest::LatestSlot;
use freqmeter::queue::{SampleQueue, QUEUE_CAPACITY};

#[test]
fn queue_is_first_in_first_out() {
    let mut q = SampleQueue::new();
    assert!(q.is_empty());
    assert!(q.enqueue(10));
    assert!(q.enqueue(20));
    assert!(q.enqueue(30));
    assert_eq!(q.len(), 3);
    assert_eq!(q.dequeue(), Some(10));
    assert_eq!(q.dequeue(), Some(20));
    assert!(q.enqueue(40));
    assert_eq!(q.dequeue(), Some(30));
    assert_eq!(q.dequeue(), Some(40));
    assert_eq!(q.dequeue(), None);
    assert!(q.is_empty());
}

#[test]
fn full_queue_drops_the_newest() {
    let mut q = SampleQueue::new();
    let offered = [11u64, 22, 33, 44, 55, 66];
    let mut taken = 0;
    for sample in offered {
        if q.enqueue(sample) {
            taken += 1;
        }
    }
    assert_eq!(taken, QUEUE_CAPACITY);
    assert_eq!(q.len(), 4);
    assert!(q.is_full());
    assert_eq!(q.dequeue(), Some(11));
    assert_eq!(q.dequeue(), Some(22));
    assert_eq!(q.dequeue(), Some(33));
    assert_eq!(q.dequeue(), Some(44));
    assert_eq!(q.dequeue(), None);
}

#[test]
fn queue_takes_again_once_a_slot_is_free() {
    let mut q = SampleQueue::new();
    for sample in 0..4u64 {
        assert!(q.enqueue(sample));
    }
    assert!(!q.enqueue(99));
    assert_eq!(q.dequeue(), Some(0));
    assert!(!q.is_full());
    assert!(q.enqueue(4));
    assert!(!q.enqueue(100));
    for sample in 1..5u64 {
        assert_eq!(q.dequeue(), Some(sample));
    }
    assert_eq!(q.dequeue(), None);
}

#[test]
fn queue_keeps_order_past_the_index_width() {
    // The ring's indices are eight bits wide; go round them several times.
    let mut q = SampleQueue::new();
    let mut next_in = 0u64;
    let mut next_out = 0u64;
    for round in 0..1000usize {
        let burst = round % 5;
        for _ in 0..burst {
            if q.enqueue(next_in) {
                next_in += 1;
            }
        }
        assert!(q.len() <= QUEUE_CAPACITY);
        for _ in 0..(round % 3) {
            if let Some(sample) = q.dequeue() {
                assert_eq!(sample, next_out);
                next_out += 1;
            }
        }
    }
    assert_eq!(q.len() as u64, next_in - next_out);
    assert!(next_in > 300);
}

#[test]
fn queue_len_follows_its_contents() {
    let mut q = SampleQueue::new();
    assert_eq!(q.len(), 0);
    q.enqueue(u64::MAX);
    assert_eq!(q.len(), 1);
    assert!(!q.is_empty());
    assert!(!q.is_full());
    assert_eq!(q.dequeue(), Some(u64::MAX));
    assert_eq!(q.len(), 0);
}

#[test]
fn slot_returns_a_sample_once() {
    let mut slot = LatestSlot::new();
    assert_eq!(slot.peek(), None);
    assert_eq!(slot.poll(), None);
    slot.publish(1, 500);
    assert_eq!(slot.peek(), Some(500));
    assert_eq!(slot.peek(), Some(500));
    assert_eq!(slot.poll(), Some(500));
    assert_eq!(slot.poll(), None);
    assert_eq!(slot.poll(), None);
    assert_eq!(slot.peek(), None);
    assert_eq!(slot, LatestSlot { tick: 1, value: 500, seen: 1 });
}

#[test]
fn slot_keeps_only_the_newest() {
    let mut slot = LatestSlot::new();
    slot.publish(1, 100);
    slot.publish(2, 200);
    slot.publish(3, 300);
    assert_eq!(slot.poll(), Some(300));
    assert_eq!(slot.poll(), None);
    // The same value again is a new sample when its tick is new.
    slot.publish(4, 300);
    assert_eq!(slot.poll(), Some(300));
    assert_eq!(slot.poll(), None);
}

#[test]
fn slot_tells_samples_apart_by_tick_only() {
    let mut slot = LatestSlot::new();
    slot.publish(7, 1);
    assert_eq!(slot.poll(), Some(1));
    slot.publish(7, 2);
    assert_eq!(slot.poll(), None);
    assert_eq!(slot.value, 2);
}

#[test]
fn channel_of_each_policy() {
    let mut latest = Channel::new(ChannelPolicy::OverwriteLatest);
    let mut queue = Channel::new(ChannelPolicy::BoundedQueue);
    assert_eq!(latest.policy(), ChannelPolicy::OverwriteLatest);
    assert_eq!(queue.policy(), ChannelPolicy::BoundedQueue);
    assert_eq!(latest.take(), None);
    assert_eq!(queue.take(), None);
    for tick in 1..=6u64 {
        latest.publish(tick, tick * 10);
        queue.publish(tick, tick * 10);
    }
    assert_eq!(latest.take(), Some(60));
    assert_eq!(latest.take(), None);
    assert_eq!(queue.take(), Some(10));
    assert_eq!(queue.take(), Some(20));
    assert_eq!(queue.take(), Some(30));
    assert_eq!(queue.take(), Some(40));
    assert_eq!(queue.take(), None);
}
