use freqmeter::channel::{Channel, ChannelPolicy};
use freqmeter::consumer::{display_mode, DisplayMode, ForegroundConsumer, RenderRequest};
use freqmeter::counter::{CounterConfig, PulseCounter, COUNTER_MAX, MODULUS};
use freqmeter::overflow::{OverflowAccumulator, WRAPS_MAX};
use freqmeter::sample::SampleWindow;
use freqmeter::scheduler::SampleScheduler;
use freqmeter::signal::deliver_edges;

#[test]
fn counter_wraps_at_the_modulus() {
    let mut counter = PulseCounter::new();
    assert_eq!(counter, PulseCounter { value: 0, overflow_pending: false });
    counter.edge();
    assert_eq!(counter.read(), 1);
    counter.write(COUNTER_MAX);
    assert!(!counter.overflow_pending);
    counter.edge();
    assert_eq!(counter.read(), 0);
    assert!(counter.overflow_pending);
    counter.edge();
    assert_eq!(counter.read(), 1);
    assert!(counter.overflow_pending);
    counter.clear_overflow();
    assert_eq!(counter, PulseCounter { value: 1, overflow_pending: false });
    assert_eq!(u32::from(COUNTER_MAX) + 1, MODULUS);
}

#[test]
fn external_clock_configuration() {
    let cfg = CounterConfig::external_clock();
    assert_eq!(cfg.slave_mode, 0b111);
    assert_eq!(cfg.filter, 0);
    assert!(!cfg.inverted);
    assert_eq!(cfg.prescaler, 0);
    assert_eq!(cfg.trigger, 0b111);
    assert_eq!(cfg.auto_reload, 65535);
    assert!(cfg.update_on_overflow_only);
}

#[test]
fn accumulator_counts_every_wrap() {
    let mut acc = OverflowAccumulator::new();
    assert_eq!(acc.count(), 0);
    acc.record_wrap();
    acc.record_wrap();
    assert_eq!(acc.count(), 2);
    acc.reset();
    assert_eq!(acc.count(), 0);
}

#[test]
fn accumulator_stays_at_its_limit() {
    let mut acc = OverflowAccumulator { wraps: WRAPS_MAX - 1 };
    acc.record_wrap();
    assert_eq!(acc.count(), WRAPS_MAX);
    acc.record_wrap();
    assert_eq!(acc.count(), WRAPS_MAX);
}

#[test]
fn service_clears_the_flag_and_counts() {
    let mut acc = OverflowAccumulator::new();
    let mut counter = PulseCounter { value: 9, overflow_pending: true };
    acc.service(&mut counter);
    assert_eq!(counter, PulseCounter { value: 9, overflow_pending: false });
    assert_eq!(acc.count(), 1);
    acc.service(&mut counter);
    assert_eq!(acc.count(), 1);
}

#[test]
fn delivery_serves_a_pending_wrap_first() {
    let mut acc = OverflowAccumulator::new();
    let mut counter = PulseCounter { value: 65530, overflow_pending: true };
    deliver_edges(&mut counter, &mut acc, 0);
    assert_eq!(acc.count(), 1);
    assert_eq!(counter, PulseCounter { value: 65530, overflow_pending: false });
    deliver_edges(&mut counter, &mut acc, 10);
    assert_eq!(acc.count(), 2);
    assert_eq!(counter.read(), 4);
}

#[test]
fn window_rejects_zero() {
    assert!(SampleWindow::new(0, 4).is_none());
    assert!(SampleWindow::new(4, 0).is_none());
    assert!(SampleWindow::new(0, 0).is_none());
    let w = SampleWindow::new(4, 2).unwrap();
    assert_eq!(w.ticks(), 4);
    assert_eq!(w.ticks_per_unit(), 2);
    let w = SampleWindow::every_tick();
    assert_eq!((w.ticks(), w.ticks_per_unit()), (1, 1));
}

#[test]
fn frequency_is_count_times_rate_over_window() {
    let unit = SampleWindow::new(4, 4).unwrap();
    assert_eq!(unit.frequency(0), 0);
    assert_eq!(unit.frequency(70000), 70000);
    assert_eq!(unit.frequency(u32::MAX), u64::from(u32::MAX));
    let quarter = SampleWindow::new(1, 4).unwrap();
    assert_eq!(quarter.frequency(100), 400);
    let long = SampleWindow::new(3, 1).unwrap();
    assert_eq!(long.frequency(10), 3);
    assert_eq!(long.frequency(11), 3);
    assert_eq!(long.frequency(12), 4);
    let extreme = SampleWindow::new(1, u32::MAX).unwrap();
    assert_eq!(extreme.frequency(u32::MAX), 18446744065119617025);
    let slow = SampleWindow::new(u32::MAX, 1).unwrap();
    assert_eq!(slow.frequency(u32::MAX), 1);
    assert_eq!(slow.frequency(u32::MAX - 1), 0);
}

#[test]
fn scheduler_is_due_on_every_nth_tick() {
    let mut s = SampleScheduler::new(SampleWindow::new(4, 4).unwrap());
    let mut due = Vec::new();
    for _ in 0..12 {
        due.push(s.on_tick());
    }
    assert_eq!(
        due,
        vec![false, false, false, true, false, false, false, true, false, false, false, true]
    );
    assert_eq!(s.tick(), 12);
    assert_eq!(s.phase(), 0);
    assert_eq!(s.window().ticks(), 4);
}

#[test]
fn scheduler_without_decimation_is_always_due() {
    let mut s = SampleScheduler::new(SampleWindow::every_tick());
    for tick in 1..=5u64 {
        assert!(s.on_tick());
        assert_eq!(s.tick(), tick);
        assert_eq!(s.phase(), 0);
    }
}

#[test]
fn display_mode_follows_the_pin() {
    assert_eq!(display_mode(true), DisplayMode::Graphic);
    assert_eq!(display_mode(false), DisplayMode::Text);
}

#[test]
fn consumer_forwards_one_sample_per_wake() {
    let mut channel = Channel::new(ChannelPolicy::BoundedQueue);
    let mut consumer = ForegroundConsumer::new(DisplayMode::Text);
    assert_eq!(consumer.on_wake(&mut channel), None);
    assert!(!consumer.indicator);
    channel.publish(1, 1000);
    channel.publish(2, 2000);
    assert_eq!(
        consumer.on_wake(&mut channel),
        Some(RenderRequest { frequency: 1000, mode: DisplayMode::Text, indicator: true })
    );
    assert_eq!(
        consumer.on_wake(&mut channel),
        Some(RenderRequest { frequency: 2000, mode: DisplayMode::Text, indicator: false })
    );
    assert_eq!(consumer.on_wake(&mut channel), None);
    assert!(!consumer.indicator);
}

#[test]
fn consumer_drains_oldest_first() {
    let mut channel = Channel::new(ChannelPolicy::BoundedQueue);
    let mut consumer = ForegroundConsumer::new(DisplayMode::Graphic);
    for tick in 1..=3u64 {
        channel.publish(tick, tick * 7);
    }
    let requests = consumer.drain(&mut channel);
    assert_eq!(
        requests,
        vec![
            RenderRequest { frequency: 7, mode: DisplayMode::Graphic, indicator: true },
            RenderRequest { frequency: 14, mode: DisplayMode::Graphic, indicator: false },
            RenderRequest { frequency: 21, mode: DisplayMode::Graphic, indicator: true },
        ]
    );
    assert!(consumer.indicator);
    assert_eq!(channel.take(), None);
    assert_eq!(consumer.drain(&mut channel), vec![]);
    assert!(consumer.indicator);
}

#[test]
fn consumer_drains_the_slot() {
    let mut channel = Channel::new(ChannelPolicy::OverwriteLatest);
    let mut consumer = ForegroundConsumer::new(DisplayMode::Text);
    channel.publish(1, 5);
    channel.publish(2, 6);
    let requests = consumer.drain(&mut channel);
    assert_eq!(
        requests,
        vec![RenderRequest { frequency: 6, mode: DisplayMode::Text, indicator: true }]
    );
    assert_eq!(consumer.drain(&mut channel), vec![]);
}

#[test]
fn two_wraps_before_one_service_count_once() {
    // The flag is a single bit: a second wrap before the handler runs
    // leaves no trace.
    let mut acc = OverflowAccumulator::new();
    let mut counter = PulseCounter::new();
    for _ in 0..(2 * MODULUS + 5) {
        counter.edge();
    }
    assert_eq!(counter, PulseCounter { value: 5, overflow_pending: true });
    acc.service(&mut counter);
    assert_eq!(acc.count(), 1);
    assert!(!counter.overflow_pending);
}
