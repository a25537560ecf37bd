//! Runs of the scheduler over what the ingress queue hands it, and what holds of every run.

use crate::channel::Arrival;
use crate::event::EventData;
use crate::scheduler::{elapsed_ms, ActionView, SchedulerState, BUSY_WAIT_MS};
use vstd::prelude::*;

verus! {

/// One turn of the worker's loop as the scheduler sees it: what the wait ended with, what the
/// clock read before it, and whether the bridge was ready.
pub struct Tick {
    pub arrival: Arrival,
    pub now_ms: u64,
    pub ready: bool,
}

/// Where a run of the scheduler has led: its state, and the batches it has emitted, in order.
pub struct Run {
    pub state: SchedulerState,
    pub batches: Seq<Seq<EventData>>,
}

/// The run of the scheduler from `start` over `ticks`.
pub open spec fn run(start: SchedulerState, ticks: Seq<Tick>) -> Run
    decreases ticks.len(),
{
    if ticks.len() == 0 {
        Run { state: start, batches: Seq::empty() }
    } else {
        let before = run(start, ticks.drop_last());
        let tick = ticks.last();
        let step = before.state.step(tick.arrival, tick.now_ms, tick.ready);
        Run {
            state: step.next,
            batches: match step.action {
                ActionView::Flush(batch) => before.batches.push(batch),
                _ => before.batches,
            },
        }
    }
}

/// The events that the queue handed over during `ticks`, in the order of their arrival.
pub open spec fn arrived(ticks: Seq<Tick>) -> Seq<EventData>
    decreases ticks.len(),
{
    if ticks.len() == 0 {
        Seq::empty()
    } else {
        match ticks.last().arrival {
            Arrival::Event(event) => arrived(ticks.drop_last()).push(event),
            _ => arrived(ticks.drop_last()),
        }
    }
}

/// The queue stayed open throughout `ticks`.
pub open spec fn connected(ticks: Seq<Tick>) -> bool {
    forall|i: int| 0 <= i < ticks.len() ==> !((#[trigger] ticks[i]).arrival is Disconnected)
}

/// Every wait in `ticks` ended with an event.
pub open spec fn all_events(ticks: Seq<Tick>) -> bool {
    forall|i: int| 0 <= i < ticks.len() ==> (#[trigger] ticks[i]).arrival is Event
}

/// Every wait in `ticks` timed out.
pub open spec fn all_timeouts(ticks: Seq<Tick>) -> bool {
    forall|i: int| 0 <= i < ticks.len() ==> (#[trigger] ticks[i]).arrival is Timeout
}

/// The queue stayed open throughout `ticks`, and no turn found the timer run out with
/// something to flush: the events came faster than the timer runs out.
pub open spec fn timer_quiet(start: SchedulerState, ticks: Seq<Tick>) -> bool
    decreases ticks.len(),
{
    if ticks.len() == 0 {
        true
    } else {
        let tick = ticks.last();
        let before = run(start, ticks.drop_last()).state;
        &&& timer_quiet(start, ticks.drop_last())
        &&& match tick.arrival {
            Arrival::Event(_) => !before.timer_ran_out(tick.now_ms, tick.ready),
            Arrival::Timeout => !before.timer_due(tick.now_ms, tick.ready),
            Arrival::Disconnected => false,
        }
    }
}

/// Every turn of `ticks` began within one flush interval after the last flush before them,
/// and the queue stayed open.
pub open spec fn within_one_interval(start: SchedulerState, ticks: Seq<Tick>) -> bool {
    forall|i: int|
        0 <= i < ticks.len() ==> {
            &&& !((#[trigger] ticks[i]).arrival is Disconnected)
            &&& start.last_flush_ms <= ticks[i].now_ms
            &&& ticks[i].now_ms - start.last_flush_ms <= start.flush_interval_ms
        }
}

/// Turn `i` of `ticks` found the bridge ready and the timer of `start` run out.
pub open spec fn due_at(start: SchedulerState, ticks: Seq<Tick>, i: int) -> bool {
    &&& 0 <= i < ticks.len()
    &&& ticks[i].ready
    &&& elapsed_ms(ticks[i].now_ms, start.last_flush_ms) > start.flush_interval_ms
}

/// A run keeps the scheduler in order and its thresholds as they were, and never emits an
/// empty batch or one above the size limit: the sink is not contacted for nothing.
pub proof fn lemma_batches_are_never_empty(start: SchedulerState, ticks: Seq<Tick>)
    requires
        start.wf(),
    ensures
        run(start, ticks).state.wf(),
        run(start, ticks).state.size_limit == start.size_limit,
        run(start, ticks).state.flush_interval_ms == start.flush_interval_ms,
        forall|k: int|
            0 <= k < run(start, ticks).batches.len() ==> 1 <= (#[trigger] run(
                start,
                ticks,
            ).batches[k]).len() <= start.size_limit,
    decreases ticks.len(),
{
    if ticks.len() > 0 {
        lemma_batches_are_never_empty(start, ticks.drop_last());
    }
}

/// While the queue stays open, every event that it hands over stands in exactly one place,
/// in the order of arrival: the emitted batches laid end to end, followed by the batch still
/// held, are the events held at the start followed by the events that arrived. No event is
/// lost, doubled or moved.
pub proof fn lemma_batches_keep_arrival_order(start: SchedulerState, ticks: Seq<Tick>)
    requires
        start.wf(),
        connected(ticks),
    ensures
        run(start, ticks).batches.flatten() + run(start, ticks).state.batch == start.batch
            + arrived(ticks),
    decreases ticks.len(),
{
    if ticks.len() == 0 {
        assert(Seq::<Seq<EventData>>::empty().flatten() =~= Seq::<EventData>::empty());
        assert(run(start, ticks).batches.flatten() + start.batch =~= start.batch + arrived(ticks));
    } else {
        let prefix = ticks.drop_last();
        let tick = ticks.last();
        assert forall|i: int| 0 <= i < prefix.len() implies !((#[trigger] prefix[i]).arrival
            is Disconnected) by {
            assert(prefix[i] == ticks[i]);
        }
        lemma_batches_keep_arrival_order(start, prefix);
        let before = run(start, prefix);
        let after = run(start, ticks);
        assert(tick == ticks[ticks.len() - 1]);
        match tick.arrival {
            Arrival::Event(event) => {
                let grown = before.state.batch.push(event);
                if grown.len() >= before.state.size_limit || before.state.timer_ran_out(
                    tick.now_ms,
                    tick.ready,
                ) {
                    before.batches.lemma_flatten_push(grown);
                }
                assert(after.batches.flatten() + after.state.batch =~= (before.batches.flatten()
                    + before.state.batch).push(event));
                assert(start.batch + arrived(ticks) =~= (start.batch + arrived(prefix)).push(
                    event,
                ));
            },
            Arrival::Timeout => {
                if before.state.timer_due(tick.now_ms, tick.ready) {
                    before.batches.lemma_flatten_push(before.state.batch);
                    assert(after.batches.flatten() + after.state.batch =~= before.batches.flatten()
                        + before.state.batch);
                }
            },
            Arrival::Disconnected => {},
        }
    }
}

/// When the queue closes, the scheduler stops without emitting anything, and what it held
/// is discarded.
pub proof fn lemma_stop_discards_pending(state: SchedulerState, now_ms: u64, ready: bool)
    ensures
        state.step(Arrival::Disconnected, now_ms, ready).action == ActionView::Stop,
        state.step(Arrival::Disconnected, now_ms, ready).next.batch.len() == 0,
{
}

/// Turns that all begin within one flush interval after the last flush leave the timer
/// quiet: neither an event nor a timeout among them finds it run out.
pub proof fn lemma_fast_turns_leave_the_timer_quiet(start: SchedulerState, ticks: Seq<Tick>)
    requires
        within_one_interval(start, ticks),
    ensures
        timer_quiet(start, ticks),
        run(start, ticks).state.last_flush_ms >= start.last_flush_ms,
        run(start, ticks).state.flush_interval_ms == start.flush_interval_ms,
    decreases ticks.len(),
{
    if ticks.len() > 0 {
        let prefix = ticks.drop_last();
        assert forall|i: int| 0 <= i < prefix.len() implies {
            &&& !((#[trigger] prefix[i]).arrival is Disconnected)
            &&& start.last_flush_ms <= prefix[i].now_ms
            &&& prefix[i].now_ms - start.last_flush_ms <= start.flush_interval_ms
        } by {
            assert(prefix[i] == ticks[i]);
        }
        lemma_fast_turns_leave_the_timer_quiet(start, prefix);
        assert(ticks.last() == ticks[ticks.len() - 1]);
    }
}

/// Events that come faster than the timer runs out leave in batches of exactly the size
/// limit, each holding the next events in order of arrival; what is left over, fewer than
/// the limit, is held back for the timer.
pub proof fn lemma_burst_leaves_in_full_batches(start: SchedulerState, ticks: Seq<Tick>)
    requires
        start.wf(),
        timer_quiet(start, ticks),
    ensures
        ({
            let all = start.batch + arrived(ticks);
            let limit = start.size_limit as int;
            let end = run(start, ticks);
            &&& end.batches.len() == all.len() / start.size_limit
            &&& forall|k: int|
                0 <= k < end.batches.len() ==> #[trigger] end.batches[k] == all.subrange(
                    k * limit,
                    (k + 1) * limit,
                )
            &&& end.state.batch == all.subrange(end.batches.len() * limit, all.len() as int)
            &&& end.state.batch.len() == all.len() % start.size_limit
        }),
{
    let all = start.batch + arrived(ticks);
    let end = run(start, ticks);
    lemma_burst_shape(start, ticks);
    vstd::arithmetic::div_mod::lemma_fundamental_div_mod_converse(
        all.len() as int,
        start.size_limit as int,
        end.batches.len() as int,
        end.state.batch.len() as int,
    );
}

/// The shape of a run in which the timer stays quiet, before division comes into it: so
/// many full batches, and a held batch, that together make up all the events.
proof fn lemma_burst_shape(start: SchedulerState, ticks: Seq<Tick>)
    requires
        start.wf(),
        timer_quiet(start, ticks),
    ensures
        ({
            let all = start.batch + arrived(ticks);
            let limit = start.size_limit as int;
            let end = run(start, ticks);
            let q = end.batches.len() as int;
            &&& end.state.wf()
            &&& end.state.size_limit == start.size_limit
            &&& all.len() == q * limit + end.state.batch.len()
            &&& forall|k: int|
                0 <= k < q ==> #[trigger] end.batches[k] == all.subrange(
                    k * limit,
                    (k + 1) * limit,
                )
            &&& end.state.batch == all.subrange(q * limit, all.len() as int)
        }),
    decreases ticks.len(),
{
    let all = start.batch + arrived(ticks);
    let limit = start.size_limit as int;
    let end = run(start, ticks);
    if ticks.len() == 0 {
        assert(all =~= start.batch);
        assert(end.state.batch =~= all.subrange(0, all.len() as int));
    } else {
        let prefix = ticks.drop_last();
        let tick = ticks.last();
        lemma_burst_shape(start, prefix);
        let before = run(start, prefix);
        let earlier = start.batch + arrived(prefix);
        let q = before.batches.len() as int;
        assert(q * limit + limit == (q + 1) * limit) by (nonlinear_arith);
        assert(0 <= q * limit) by (nonlinear_arith)
            requires
                0 <= q,
                0 <= limit,
        ;
        match tick.arrival {
            Arrival::Event(event) => {
                assert(all =~= earlier.push(event));
                let grown = before.state.batch.push(event);
                assert forall|k: int| 0 <= k < q implies #[trigger] before.batches[k]
                    == all.subrange(k * limit, (k + 1) * limit) by {
                    assert((k + 1) * limit <= q * limit) by (nonlinear_arith)
                        requires
                            k + 1 <= q,
                            0 <= limit,
                    ;
                    assert(0 <= k * limit) by (nonlinear_arith)
                        requires
                            0 <= k,
                            0 <= limit,
                    ;
                    assert(k * limit <= (k + 1) * limit) by (nonlinear_arith)
                        requires
                            0 <= limit,
                    ;
                    assert(earlier.subrange(k * limit, (k + 1) * limit) =~= all.subrange(
                        k * limit,
                        (k + 1) * limit,
                    ));
                }
                assert(grown =~= all.subrange(q * limit, all.len() as int));
                if grown.len() >= before.state.size_limit {
                    assert(end.batches == before.batches.push(grown));
                    assert(end.state.batch =~= all.subrange((q + 1) * limit, all.len() as int));
                } else {
                    assert(end.batches == before.batches);
                }
            },
            Arrival::Timeout => {
                assert(all == earlier);
                assert(end == before);
            },
            Arrival::Disconnected => {},
        }
    }
}

/// No turn that finds the timer run out leaves anything behind: be it an event or a timeout
/// that ends the wait, what has gathered leaves as one batch, the event with it. A steady
/// trickle of events cannot put the flush off until the batch is full.
pub proof fn lemma_no_turn_outlasts_the_timer(
    state: SchedulerState,
    arrival: Arrival,
    now_ms: u64,
    ready: bool,
)
    requires
        state.wf(),
        state.timer_ran_out(now_ms, ready),
    ensures
        state.step(arrival, now_ms, ready).next.batch.len() == 0,
        arrival matches Arrival::Event(event) ==> state.step(arrival, now_ms, ready).action
            == ActionView::Flush(state.batch.push(event)),
        arrival is Timeout && state.batch.len() > 0 ==> state.step(arrival, now_ms, ready).action
            == ActionView::Flush(state.batch),
        arrival is Timeout && state.batch.len() == 0 ==> state.step(arrival, now_ms, ready).action
            == ActionView::Wait,
{
}

/// A batch that waits for the timer leaves at the first wait that times out with the bridge
/// ready and more than the flush interval gone since the last flush: not before, and whole,
/// as one batch. Waits that time out after that find nothing to flush. While the batch
/// waits, the scheduler asks for the short wait, so that the timer is looked at often.
pub proof fn lemma_timer_flushes_once_due(start: SchedulerState, ticks: Seq<Tick>)
    requires
        start.wf(),
        start.batch.len() > 0,
        all_timeouts(ticks),
    ensures
        start.wait_ms() == BUSY_WAIT_MS,
        (exists|i: int| due_at(start, ticks, i)) ==> {
            &&& run(start, ticks).batches == seq![start.batch]
            &&& run(start, ticks).state.batch.len() == 0
        },
        !(exists|i: int| due_at(start, ticks, i)) ==> {
            &&& run(start, ticks).batches.len() == 0
            &&& run(start, ticks).state == start
        },
    decreases ticks.len(),
{
    if ticks.len() > 0 {
        let prefix = ticks.drop_last();
        let tick = ticks.last();
        let last = ticks.len() - 1;
        assert(tick == ticks[last]);
        assert forall|i: int| 0 <= i < prefix.len() implies (#[trigger] prefix[i]).arrival
            is Timeout by {
            assert(prefix[i] == ticks[i]);
        }
        lemma_timer_flushes_once_due(start, prefix);
        assert forall|i: int| due_at(start, prefix, i) implies due_at(start, ticks, i) by {
            assert(prefix[i] == ticks[i]);
        }
        assert forall|i: int| due_at(start, ticks, i) && i != last implies due_at(
            start,
            prefix,
            i,
        ) by {
            assert(prefix[i] == ticks[i]);
        }
        if exists|i: int| due_at(start, prefix, i) {
            let i = choose|i: int| due_at(start, prefix, i);
            assert(due_at(start, ticks, i));
        } else if due_at(start, ticks, last) {
            assert(run(start, ticks).batches =~= seq![start.batch]);
        } else {
            assert(!(exists|i: int| due_at(start, ticks, i)));
        }
    }
}

} // verus!
