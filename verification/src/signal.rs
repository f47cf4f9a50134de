//! The signal as the counter sees it: a run of edges, with every wrap
//! served by the overflow handler before the next edge arrives.
//!
//! This is the arithmetic of a sampling window. It says what the counter
//! and the accumulator hold after a given number of edges, and that the two
//! together lose none of them.

use vstd::prelude::*;
use crate::counter::{value_after, wraps_during, PulseCounter, MODULUS};
use crate::overflow::{wraps_plus, OverflowAccumulator, WRAPS_MAX};
use crate::sample::{lemma_unit_window_keeps_count, pulse_count, scaled};

verus! {

/// Largest number of edges in one window that the accumulator and the
/// counter can tell apart.
pub open spec fn window_limit() -> int {
    (WRAPS_MAX as int + 1) * (MODULUS as int)
}

/// The pulse count that an activation rebuilds when `edges` edges arrived
/// since the counter and the accumulator were reset.
pub open spec fn window_count(edges: int) -> int {
    pulse_count(wraps_plus(0, wraps_during(0, edges)), value_after(0, edges))
}

/// One if the flag is raised, else zero.
pub open spec fn pending_wraps(counter: PulseCounter) -> int {
    if counter.overflow_pending {
        1
    } else {
        0
    }
}

/// Delivers `edges` edges to a counter held in software. A wrap that is
/// pending on entry is served first; after that every wrap is served as
/// soon as it happens.
pub fn deliver_edges(counter: &mut PulseCounter, overflow: &mut OverflowAccumulator, edges: u32)
    ensures
        final(counter).value == value_after(old(counter).value as int, edges as int),
        !final(counter).overflow_pending,
        final(overflow).wraps == wraps_plus(
            old(overflow).wraps as int,
            pending_wraps(*old(counter)) + wraps_during(old(counter).value as int, edges as int),
        ),
{
    let ghost start = counter.value as int;
    let ghost base = overflow.wraps as int;
    let ghost pending = pending_wraps(*counter);
    overflow.service(counter);
    let mut delivered: u32 = 0;
    while delivered < edges
        invariant
            delivered <= edges,
            0 <= start < MODULUS,
            0 <= base <= WRAPS_MAX,
            0 <= pending <= 1,
            counter.value == value_after(start, delivered as int),
            !counter.overflow_pending,
            overflow.wraps == wraps_plus(base, pending + wraps_during(start, delivered as int)),
        decreases edges - delivered,
    {
        counter.edge();
        overflow.service(counter);
        delivered = delivered + 1;
    }
}

/// No pulse is lost and none is counted twice: while the accumulator has
/// not reached its limit, the pulses that it and the counter stand for grow
/// by exactly the number of edges delivered, wherever in its range the
/// counter started and however often it wrapped on the way.
pub proof fn lemma_delivery_conserves_pulses(wraps: nat, raw: nat, pending: nat, edges: nat)
    requires
        raw < MODULUS,
        pending <= 1,
        wraps + pending + wraps_during(raw as int, edges as int) <= WRAPS_MAX,
    ensures
        pulse_count(
            wraps_plus(wraps as int, pending + wraps_during(raw as int, edges as int)),
            value_after(raw as int, edges as int),
        ) == pulse_count((wraps + pending) as int, raw as int) + edges,
{
}

/// A window of `wraps` full turns of the counter and `rest` edges more is
/// rebuilt exactly: the accumulator holds the turns, the counter the rest,
/// and the pulse count is their sum.
pub proof fn lemma_window_count_is_exact(wraps: nat, rest: nat)
    requires
        wraps <= WRAPS_MAX,
        rest < MODULUS,
    ensures
        wraps_during(0, wraps * MODULUS + rest) == wraps,
        value_after(0, wraps * MODULUS + rest) == rest,
        window_count(wraps * MODULUS + rest) == wraps * MODULUS + rest,
{
}

/// A window with fewer edges than the counter's modulus never wraps, and
/// its pulse count is the number of edges.
pub proof fn lemma_short_window_count(edges: nat)
    requires
        edges < MODULUS,
    ensures
        wraps_during(0, edges as int) == 0,
        value_after(0, edges as int) == edges,
        window_count(edges as int) == edges,
{
}

/// Every window below the limit is rebuilt exactly, however its edges
/// split into turns and rest.
pub proof fn lemma_window_count(edges: nat)
    requires
        edges < window_limit(),
    ensures
        window_count(edges as int) == edges,
{
    lemma_window_count_is_exact(edges / (MODULUS as nat), edges % (MODULUS as nat));
}

/// The bias of the reset race: of the `edges` edges of a window, `racing`
/// arrive after the counter was read and before its reset completed, and
/// are lost. With at most one such edge the pulse count is off by at most
/// one, and where the window is one time unit long, so is the sample.
pub proof fn lemma_race_bias(edges: nat, racing: nat, window_ticks: nat)
    requires
        racing <= 1,
        racing <= edges,
        edges - racing < window_limit(),
        window_ticks >= 1,
    ensures
        window_count(edges - racing) == edges - racing,
        edges - 1 <= window_count(edges - racing) <= edges + 1,
        scaled(window_count(edges - racing), window_ticks as int, window_ticks as int) == edges
            - racing,
{
    lemma_window_count((edges - racing) as nat);
    lemma_unit_window_keeps_count(edges - racing, window_ticks as int);
}

} // verus!
