//! The batch scheduler: it gathers what the ingress queue hands over into a batch and decides
//! when the batch is flushed, by size or by time, whichever comes first.

use crate::channel::Arrival;
use crate::event::EventData;
use vstd::prelude::*;

verus! {

/// A batch that has gathered this many events is flushed at once.
pub const BATCH_SIZE_LIMIT: usize = 10_000;

/// A batch is flushed by the timer once more than this many milliseconds have passed since
/// the last flush.
pub const FLUSH_INTERVAL_MS: u64 = 1_000;

/// How long the scheduler waits for an event while its batch is empty.
pub const IDLE_WAIT_MS: u64 = 1_000;

/// How long the scheduler waits for an event while its batch holds something.
pub const BUSY_WAIT_MS: u64 = 100;

/// What the worker does after a step of the scheduler.
#[derive(Debug)]
pub enum WorkerAction {
    /// Nothing to deliver: wait on the queue again.
    Wait,
    /// Deliver this batch to the sink, then wait on the queue again.
    Flush(Vec<EventData>),
    /// The queue is closed: leave the loop.
    Stop,
}

/// The mathematical content of a `WorkerAction`.
pub enum ActionView {
    Wait,
    Flush(Seq<EventData>),
    Stop,
}

impl View for WorkerAction {
    type V = ActionView;

    open spec fn view(&self) -> ActionView {
        match self {
            WorkerAction::Wait => ActionView::Wait,
            WorkerAction::Flush(batch) => ActionView::Flush(batch@),
            WorkerAction::Stop => ActionView::Stop,
        }
    }
}

/// Milliseconds from `last_ms` to `now_ms` on a clock that does not run backwards; a reading
/// that lies before `last_ms` counts as no time passed.
pub open spec fn elapsed_ms(now_ms: u64, last_ms: u64) -> int {
    if now_ms >= last_ms {
        now_ms - last_ms
    } else {
        0
    }
}

/// The scheduler as a mathematical value.
pub struct SchedulerState {
    /// The events gathered since the last flush, oldest first.
    pub batch: Seq<EventData>,
    /// The clock's reading at the last flush.
    pub last_flush_ms: u64,
    /// The size at which a batch is flushed at once.
    pub size_limit: nat,
    /// The time after which a batch is flushed by the timer.
    pub flush_interval_ms: u64,
}

/// A state together with what the worker is to do next.
pub struct Step {
    pub next: SchedulerState,
    pub action: ActionView,
}

impl SchedulerState {
    /// The batch never reaches the size limit between two steps.
    pub open spec fn wf(self) -> bool {
        &&& self.size_limit >= 1
        &&& self.batch.len() < self.size_limit
    }

    /// How long to wait on the queue: long while idle, short while a batch is pending.
    pub open spec fn wait_ms(self) -> u64 {
        if self.batch.len() == 0 {
            IDLE_WAIT_MS
        } else {
            BUSY_WAIT_MS
        }
    }

    /// Whether the timer has run out: the bridge is ready and more than the flush interval
    /// has passed since the last flush.
    pub open spec fn timer_ran_out(self, now_ms: u64, ready: bool) -> bool {
        &&& ready
        &&& elapsed_ms(now_ms, self.last_flush_ms) > self.flush_interval_ms
    }

    /// Whether a wait that timed out leads to a flush: the timer has run out and there is
    /// something to flush.
    pub open spec fn timer_due(self, now_ms: u64, ready: bool) -> bool {
        &&& self.batch.len() > 0
        &&& self.timer_ran_out(now_ms, ready)
    }

    /// The state right after a flush at `now_ms`.
    pub open spec fn flushed_at(self, now_ms: u64) -> SchedulerState {
        SchedulerState { batch: Seq::empty(), last_flush_ms: now_ms, ..self }
    }

    /// One step: what follows from `arrival`, when the clock read `now_ms` before the wait
    /// and the bridge's readiness was `ready`. Both triggers are looked at on every turn:
    /// an event that fills the batch has it flushed, and so has an event or a timeout that
    /// finds the timer run out; whichever comes first wins.
    pub open spec fn step(self, arrival: Arrival, now_ms: u64, ready: bool) -> Step {
        match arrival {
            Arrival::Event(event) => {
                let grown = self.batch.push(event);
                if grown.len() >= self.size_limit || self.timer_ran_out(now_ms, ready) {
                    Step { next: self.flushed_at(now_ms), action: ActionView::Flush(grown) }
                } else {
                    Step {
                        next: SchedulerState { batch: grown, ..self },
                        action: ActionView::Wait,
                    }
                }
            },
            Arrival::Timeout => {
                if self.timer_due(now_ms, ready) {
                    Step { next: self.flushed_at(now_ms), action: ActionView::Flush(self.batch) }
                } else {
                    Step { next: self, action: ActionView::Wait }
                }
            },
            Arrival::Disconnected => Step {
                next: SchedulerState { batch: Seq::empty(), ..self },
                action: ActionView::Stop,
            },
        }
    }
}

/// Accumulates events and decides when they leave as a batch.
pub struct BatchScheduler {
    batch: Vec<EventData>,
    last_flush_ms: u64,
    size_limit: usize,
    flush_interval_ms: u64,
}

impl View for BatchScheduler {
    type V = SchedulerState;

    closed spec fn view(&self) -> SchedulerState {
        SchedulerState {
            batch: self.batch@,
            last_flush_ms: self.last_flush_ms,
            size_limit: self.size_limit as nat,
            flush_interval_ms: self.flush_interval_ms,
        }
    }
}

impl BatchScheduler {
    /// Between two steps the batch is below the size limit.
    #[verifier::type_invariant]
    spec fn below_limit(self) -> bool {
        &&& self.size_limit >= 1
        &&& self.batch@.len() < self.size_limit
    }

    /// A scheduler with the default thresholds and an empty batch, whose timer runs from
    /// `now_ms`.
    pub fn new(now_ms: u64) -> (scheduler: Self)
        ensures
            scheduler@ == (SchedulerState {
                batch: Seq::empty(),
                last_flush_ms: now_ms,
                size_limit: BATCH_SIZE_LIMIT as nat,
                flush_interval_ms: FLUSH_INTERVAL_MS,
            }),
            scheduler@.wf(),
    {
        BatchScheduler {
            batch: Vec::new(),
            last_flush_ms: now_ms,
            size_limit: BATCH_SIZE_LIMIT,
            flush_interval_ms: FLUSH_INTERVAL_MS,
        }
    }

    /// A scheduler with thresholds of the caller's choice and an empty batch.
    pub fn with_thresholds(now_ms: u64, size_limit: usize, flush_interval_ms: u64) -> (scheduler:
        Self)
        requires
            size_limit >= 1,
        ensures
            scheduler@ == (SchedulerState {
                batch: Seq::empty(),
                last_flush_ms: now_ms,
                size_limit: size_limit as nat,
                flush_interval_ms,
            }),
            scheduler@.wf(),
    {
        BatchScheduler { batch: Vec::new(), last_flush_ms: now_ms, size_limit, flush_interval_ms }
    }

    /// How many events the batch holds.
    pub fn pending(&self) -> (count: usize)
        ensures
            count == self@.batch.len(),
    {
        self.batch.len()
    }

    /// How long the next wait on the queue may last, in milliseconds.
    pub fn wait_ms(&self) -> (wait: u64)
        ensures
            wait == self@.wait_ms(),
    {
        if self.batch.len() == 0 {
            IDLE_WAIT_MS
        } else {
            BUSY_WAIT_MS
        }
    }

    /// Whether the timer has run out at `now_ms`.
    pub fn timer_ran_out(&self, now_ms: u64, ready: bool) -> (ran_out: bool)
        ensures
            ran_out == self@.timer_ran_out(now_ms, ready),
    {
        let elapsed: u64 = if now_ms >= self.last_flush_ms {
            now_ms - self.last_flush_ms
        } else {
            0
        };
        ready && elapsed > self.flush_interval_ms
    }

    /// Takes one step on what the queue handed over. `now_ms` is the clock as it read before
    /// the wait began.
    pub fn step(&mut self, arrival: Arrival, now_ms: u64, ready: bool) -> (action: WorkerAction)
        ensures
            old(self)@.wf(),
            final(self)@ == old(self)@.step(arrival, now_ms, ready).next,
            action@ == old(self)@.step(arrival, now_ms, ready).action,
            final(self)@.wf(),
    {
        proof {
            use_type_invariant(&*self);
        }
        match arrival {
            Arrival::Event(event) => {
                let ran_out = self.timer_ran_out(now_ms, ready);
                let mut batch: Vec<EventData> = Vec::new();
                std::mem::swap(&mut self.batch, &mut batch);
                batch.push(event);
                if batch.len() >= self.size_limit || ran_out {
                    self.last_flush_ms = now_ms;
                    WorkerAction::Flush(batch)
                } else {
                    std::mem::swap(&mut self.batch, &mut batch);
                    WorkerAction::Wait
                }
            },
            Arrival::Timeout => {
                if self.batch.len() > 0 && self.timer_ran_out(now_ms, ready) {
                    let mut due: Vec<EventData> = Vec::new();
                    std::mem::swap(&mut self.batch, &mut due);
                    self.last_flush_ms = now_ms;
                    WorkerAction::Flush(due)
                } else {
                    WorkerAction::Wait
                }
            },
            Arrival::Disconnected => {
                self.batch = Vec::new();
                WorkerAction::Stop
            },
        }
    }
}

} // verus!
