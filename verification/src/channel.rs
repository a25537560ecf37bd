//! The ingress queue: a bounded queue of events with many producers and one consumer.
//!
//! The queue itself is `crossbeam_channel`'s. What a send or a receive yields depends on what
//! other threads do, so nothing is claimed about it here: callers state what holds for every
//! outcome.

use crate::event::EventData;
use crossbeam_channel::{Receiver, Sender};
use vstd::prelude::*;

verus! {

/// The sending half of a `crossbeam_channel` channel, carried as an opaque value.
#[verifier::external_type_specification]
#[verifier::external_body]
#[verifier::reject_recursive_types(T)]
pub struct ExSender<T>(Sender<T>);

/// The receiving half of a `crossbeam_channel` channel, carried as an opaque value.
#[verifier::external_type_specification]
#[verifier::external_body]
#[verifier::reject_recursive_types(T)]
pub struct ExReceiver<T>(Receiver<T>);

/// How many events the ingress queue holds at most.
pub const INGRESS_CAPACITY: usize = 10_000;

/// What became of an event offered to the queue.
#[derive(Debug, Clone, Copy, PartialEq, Eq, Structural)]
pub enum Enqueue {
    /// The queue took the event.
    Queued,
    /// The queue was full; the event is lost.
    Full,
    /// The consumer is gone; the event is lost.
    Closed,
}

/// What a wait on the queue ended with.
#[derive(Debug)]
pub enum Arrival {
    /// The oldest queued event.
    Event(EventData),
    /// Nothing arrived in time.
    Timeout,
    /// Every producer is gone and the queue is empty.
    Disconnected,
}

/// How many events the queue behind a sending half was made to hold at most. The limit is
/// fixed when the queue is made and is the same for every copy of the half.
pub uninterp spec fn sender_limit(sender: Sender<EventData>) -> nat;

/// How many events the queue behind a receiving half was made to hold at most.
pub uninterp spec fn receiver_limit(receiver: Receiver<EventData>) -> nat;

/// Calls `crossbeam_channel::bounded`, which panics where the capacity is too large for its
/// index arithmetic or its buffer; the bound keeps far below that. The queue that it makes
/// holds at most `capacity` messages at a time, and never grows: that is the limit of both
/// halves. Nothing else is claimed of them.
#[verifier::external_body]
pub(crate) fn bounded(capacity: usize) -> (halves: (Sender<EventData>, Receiver<EventData>))
    requires
        capacity <= 1_000_000,
    ensures
        sender_limit(halves.0) == capacity,
        receiver_limit(halves.1) == capacity,
{
    crossbeam_channel::bounded(capacity)
}

/// Calls `Sender::try_send`, which never blocks, and tells its three outcomes apart. Which
/// one comes back depends on the other threads, so nothing is claimed of it.
#[verifier::external_body]
pub(crate) fn try_send(sender: &Sender<EventData>, event: EventData) -> (outcome: Enqueue) {
    match sender.try_send(event) {
        Ok(()) => Enqueue::Queued,
        Err(crossbeam_channel::TrySendError::Full(_)) => Enqueue::Full,
        Err(crossbeam_channel::TrySendError::Disconnected(_)) => Enqueue::Closed,
    }
}

/// Calls `Receiver::recv_timeout` with a wait of `wait_ms` milliseconds and tells its three
/// outcomes apart. A wait so long that its deadline cannot be computed would never time out;
/// the bound keeps far below that. Which outcome comes back depends on the other threads and
/// on the clock, so nothing is claimed of it.
#[verifier::external_body]
pub(crate) fn recv_timeout(receiver: &Receiver<EventData>, wait_ms: u64) -> (arrival: Arrival)
    requires
        wait_ms <= 60_000,
{
    match receiver.recv_timeout(std::time::Duration::from_millis(wait_ms)) {
        Ok(event) => Arrival::Event(event),
        Err(crossbeam_channel::RecvTimeoutError::Timeout) => Arrival::Timeout,
        Err(crossbeam_channel::RecvTimeoutError::Disconnected) => Arrival::Disconnected,
    }
}

} // verus!
