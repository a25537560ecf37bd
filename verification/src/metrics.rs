//! Running totals of what has been delivered.

use vstd::prelude::*;

verus! {

/// How many events and batches the sink has taken so far.
#[derive(Debug, Clone, Copy, PartialEq, Eq, Structural)]
pub struct DeliveryTotals {
    pub events: u64,
    pub batches: u64,
}

/// `total` raised by `count`, starting over from zero where the sum passes the largest value
/// that a counter holds.
pub open spec fn counter_after(total: u64, count: int) -> u64 {
    if total + count > u64::MAX {
        (total + count - u64::MAX - 1) as u64
    } else {
        (total + count) as u64
    }
}

impl DeliveryTotals {
    /// Totals of nothing delivered yet.
    pub fn new() -> (totals: Self)
        ensures
            totals == (DeliveryTotals { events: 0, batches: 0 }),
    {
        DeliveryTotals { events: 0, batches: 0 }
    }
}

/// Counts the events of a delivered batch.
pub fn inc_events_sent_batch(totals: &mut DeliveryTotals, count: usize)
    ensures
        final(totals).events == counter_after(old(totals).events, count as int),
        final(totals).batches == old(totals).batches,
{
    let add: u64 = count as u64;
    let room: u64 = u64::MAX - totals.events;
    if add > room {
        totals.events = add - room - 1;
    } else {
        totals.events = totals.events + add;
    }
}

/// Counts a delivered batch of `count` events.
pub fn record_batch(totals: &mut DeliveryTotals, count: usize)
    ensures
        final(totals).events == counter_after(old(totals).events, count as int),
        final(totals).batches == counter_after(old(totals).batches, 1),
{
    inc_events_sent_batch(totals, count);
    if totals.batches == u64::MAX {
        totals.batches = 0;
    } else {
        totals.batches = totals.batches + 1;
    }
}

} // verus!
