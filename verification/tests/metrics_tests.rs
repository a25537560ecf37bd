use xatu::metrics::{inc_events_sent_batch, record_batch, DeliveryTotals};

#[test]
fn totals_start_at_zero() {
    assert_eq!(DeliveryTotals::new(), DeliveryTotals { events: 0, batches: 0 });
}

#[test]
fn events_of_a_batch_are_counted() {
    let mut totals = DeliveryTotals::new();
    inc_events_sent_batch(&mut totals, 10_000);
    assert_eq!(totals, DeliveryTotals { events: 10_000, batches: 0 });
    inc_events_sent_batch(&mut totals, 0);
    assert_eq!(totals, DeliveryTotals { events: 10_000, batches: 0 });
    inc_events_sent_batch(&mut totals, 17);
    assert_eq!(totals, DeliveryTotals { events: 10_017, batches: 0 });
}

#[test]
fn a_delivered_batch_counts_once() {
    let mut totals = DeliveryTotals::new();
    record_batch(&mut totals, 3);
    record_batch(&mut totals, 4);
    assert_eq!(totals, DeliveryTotals { events: 7, batches: 2 });
}

#[test]
fn counters_start_over_past_their_largest_value() {
    let mut totals = DeliveryTotals { events: u64::MAX - 2, batches: u64::MAX };
    inc_events_sent_batch(&mut totals, 2);
    assert_eq!(totals.events, u64::MAX);
    inc_events_sent_batch(&mut totals, 1);
    assert_eq!(totals.events, 0);
    let mut totals = DeliveryTotals { events: u64::MAX - 2, batches: u64::MAX };
    record_batch(&mut totals, 10);
    assert_eq!(totals, DeliveryTotals { events: 7, batches: 0 });
    assert_eq!((u64::MAX - 2).wrapping_add(10), 7);
}
