//! The worker's side of the bridge: it owns the receiving half of the ingress queue, the
//! scheduler and the delivery totals. The thread that runs it contacts the sink where an
//! action asks for it and hands back what the sink answered.

use crate::config::FullConfigWithRuntime;
use crate::event::EventData;
use crate::ffi::{handshake_from, handshake_result_of, InitError, SendError, XatuFFI};
use crate::metrics::{counter_after, record_batch, DeliveryTotals};
use crate::scheduler::{
    BatchScheduler, SchedulerState, WorkerAction, BATCH_SIZE_LIMIT, FLUSH_INTERVAL_MS,
};
use crate::channel::{receiver_limit, recv_timeout, Arrival};
use crossbeam_channel::Receiver;
use std::sync::atomic::AtomicBool;
use std::sync::Arc;
use vstd::prelude::*;

verus! {

/// The state of a scheduler that starts at `now_ms` with the default thresholds.
pub open spec fn fresh_scheduler(now_ms: u64) -> SchedulerState {
    SchedulerState {
        batch: Seq::empty(),
        last_flush_ms: now_ms,
        size_limit: BATCH_SIZE_LIMIT as nat,
        flush_interval_ms: FLUSH_INTERVAL_MS,
    }
}

/// What the dedicated worker holds.
pub struct Worker {
    config: FullConfigWithRuntime,
    receiver: Receiver<EventData>,
    initialized: Arc<AtomicBool>,
    scheduler: BatchScheduler,
    totals: DeliveryTotals,
}

impl Worker {
    /// The configuration that the sink is started with.
    pub closed spec fn config_of(&self) -> FullConfigWithRuntime {
        self.config
    }

    /// The scheduler's state.
    pub closed spec fn state(&self) -> SchedulerState {
        self.scheduler@
    }

    /// The delivery totals.
    pub closed spec fn totals_of(&self) -> DeliveryTotals {
        self.totals
    }

    /// How many records the ingress queue holds at most.
    pub closed spec fn queue_limit(&self) -> nat {
        receiver_limit(self.receiver)
    }

    /// The scheduler's state is in order.
    pub open spec fn wf(&self) -> bool {
        self.state().wf()
    }

    /// A worker that has delivered nothing, with an idle scheduler.
    pub(crate) fn new(
        config: FullConfigWithRuntime,
        receiver: Receiver<EventData>,
        initialized: Arc<AtomicBool>,
    ) -> (worker: Self)
        ensures
            worker.config_of() == config,
            worker.queue_limit() == receiver_limit(receiver),
            worker.state() == fresh_scheduler(0),
            worker.totals_of() == (DeliveryTotals { events: 0, batches: 0 }),
            worker.wf(),
    {
        Worker {
            config,
            receiver,
            initialized,
            scheduler: BatchScheduler::new(0),
            totals: DeliveryTotals::new(),
        }
    }

    /// The configuration that the sink is started with.
    pub fn config(&self) -> (config: &FullConfigWithRuntime)
        ensures
            *config == self.config_of(),
    {
        &self.config
    }

    /// The delivery totals.
    pub fn totals(&self) -> (totals: DeliveryTotals)
        ensures
            totals == self.totals_of(),
    {
        self.totals
    }

    /// How many events wait in the batch.
    pub fn pending(&self) -> (count: usize)
        ensures
            count == self.state().batch.len(),
    {
        self.scheduler.pending()
    }

    /// Takes the status with which the sink answered the handshake. Where the bridge takes
    /// the handshake and the status is zero, the bridge is ready, the scheduler starts afresh
    /// with its timer at `now_ms`, and observers are let in from here on. In every other
    /// case, a bridge that was started before among them, nothing changes.
    pub fn complete_init(&mut self, bridge: &mut XatuFFI, status: i32, now_ms: u64) -> (result:
        Result<(), InitError>)
        ensures
            result == handshake_result_of(old(bridge)@, status),
            final(bridge)@ == handshake_from(old(bridge)@, status),
            result is Ok ==> final(self).state() == fresh_scheduler(now_ms),
            result is Err ==> final(self).state() == old(self).state(),
            final(self).config_of() == old(self).config_of(),
            final(self).totals_of() == old(self).totals_of(),
            final(self).queue_limit() == old(self).queue_limit(),
    {
        let result = bridge.init_with_runtime(status);
        match &result {
            Ok(()) => {
                self.scheduler = BatchScheduler::new(now_ms);
                raise(&self.initialized);
            },
            Err(_) => {},
        }
        result
    }

    /// Waits on the ingress queue, long while the batch is empty and short while it holds
    /// something, and takes one step of the scheduler on what came. `now_ms` is the clock as
    /// read before the call. What the queue hands over and whether the bridge is ready after
    /// the wait are not known beforehand: the step is the scheduler's for one of the possible
    /// arrivals.
    pub fn poll(&mut self, now_ms: u64) -> (action: WorkerAction)
        ensures
            old(self).wf(),
            exists|arrival: Arrival, ready: bool|
                {
                    &&& final(self).state() == (#[trigger] old(self).state().step(
                        arrival,
                        now_ms,
                        ready,
                    )).next
                    &&& action@ == old(self).state().step(arrival, now_ms, ready).action
                },
            final(self).wf(),
            final(self).config_of() == old(self).config_of(),
            final(self).totals_of() == old(self).totals_of(),
            final(self).queue_limit() == old(self).queue_limit(),
    {
        let arrival = recv_timeout(&self.receiver, self.scheduler.wait_ms());
        let ready = is_raised(&self.initialized);
        self.scheduler.step(arrival, now_ms, ready)
    }

    /// Takes note of how the delivery of a batch of `count` events ended. A delivered batch
    /// is counted; a failed one is not, and is not tried again. The scheduler is untouched
    /// either way.
    pub fn record_delivery(&mut self, count: usize, result: &Result<(), SendError>)
        ensures
            final(self).state() == old(self).state(),
            final(self).config_of() == old(self).config_of(),
            final(self).queue_limit() == old(self).queue_limit(),
            final(self).totals_of() == match *result {
                Ok(()) => DeliveryTotals {
                    events: counter_after(old(self).totals_of().events, count as int),
                    batches: counter_after(old(self).totals_of().batches, 1),
                },
                Err(_) => old(self).totals_of(),
            },
    {
        match result {
            Ok(()) => {
                record_batch(&mut self.totals, count);
            },
            Err(_) => {},
        }
    }
}

/// Raises the readiness flag.
pub(crate) fn raise(flag: &AtomicBool) {
    flag.store(true, std::sync::atomic::Ordering::Relaxed);
}

/// Reads the readiness flag. Another thread may raise it at any moment, so nothing is known
/// of what is read.
pub(crate) fn is_raised(flag: &AtomicBool) -> (raised: bool) {
    flag.load(std::sync::atomic::Ordering::Relaxed)
}

} // verus!
