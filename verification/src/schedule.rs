//! What holds of every run of the worker machine: processing is serialised,
//! and shutdown is final and stops the listener exactly once.

use vstd::prelude::*;
use crate::config::WORKERS;
use crate::worker::{next, Action, Event, Worker};

verus! {

/// The state after an event; an event that cannot occur changes nothing.
pub open spec fn after(state: Worker, event: Event) -> Worker {
    match next(state, event) {
        Some((to, _)) => to,
        None => state,
    }
}

/// The state after a sequence of events.
pub open spec fn run(state: Worker, events: Seq<Event>) -> Worker
    decreases events.len(),
{
    if events.len() == 0 {
        state
    } else {
        run(after(state, events[0]), events.drop_first())
    }
}

/// How many steps of a run satisfy `counted`, which sees the state a step
/// leaves and the action it gives.
pub open spec fn tally(
    state: Worker,
    events: Seq<Event>,
    counted: spec_fn(Worker, Action) -> bool,
) -> nat
    decreases events.len(),
{
    if events.len() == 0 {
        0
    } else {
        let here: nat = match next(state, events[0]) {
            Some((_, action)) => if counted(state, action) {
                1
            } else {
                0
            },
            None => 0,
        };
        here + tally(after(state, events[0]), events.drop_first(), counted)
    }
}

/// How many times a run starts the processing operation.
pub open spec fn started(state: Worker, events: Seq<Event>) -> nat {
    tally(state, events, |from: Worker, action: Action| action is Process)
}

/// How many times a run sees the processing operation return.
pub open spec fn finished(state: Worker, events: Seq<Event>) -> nat {
    tally(state, events, |from: Worker, action: Action| from == Worker::Busy)
}

/// How many times a run waits on the queue.
pub open spec fn polls(state: Worker, events: Seq<Event>) -> nat {
    tally(state, events, |from: Worker, action: Action| action is Poll)
}

/// How many times a run tells the listener to stop.
pub open spec fn stops(state: Worker, events: Seq<Event>) -> nat {
    tally(state, events, |from: Worker, action: Action| action is StopListener)
}

/// The number of processing invocations active in a state.
pub open spec fn in_flight(state: Worker) -> nat {
    if state == Worker::Busy {
        1
    } else {
        0
    }
}

/// At most one processing invocation is active at any instant: over every
/// run, the invocations started exceed those finished by the number in
/// flight at the end, which is zero or one.
pub proof fn lemma_one_at_a_time(state: Worker, events: Seq<Event>)
    ensures
        in_flight(state) + started(state, events) == finished(state, events) + in_flight(
            run(state, events),
        ),
        in_flight(run(state, events)) <= WORKERS,
        state != Worker::Busy ==> finished(state, events) <= started(state, events)
            <= finished(state, events) + 1,
    decreases events.len(),
{
    if events.len() > 0 {
        lemma_one_at_a_time(after(state, events[0]), events.drop_first());
    }
}

/// A worker that has exited left nothing half done: every processing
/// invocation it started has finished, and it told the listener to stop
/// exactly once.
pub proof fn lemma_clean_exit(events: Seq<Event>)
    requires
        run(Worker::Ready, events) == Worker::Exited,
    ensures
        started(Worker::Ready, events) == finished(Worker::Ready, events),
        stops(Worker::Ready, events) == 1,
{
    lemma_one_at_a_time(Worker::Ready, events);
    lemma_stops_once(Worker::Ready, events);
}

/// Shutdown is final: once the worker has seen the flag down, no run waits
/// on the queue, starts processing or stops the listener again, and the
/// worker never runs again.
pub proof fn lemma_halted_is_final(state: Worker, events: Seq<Event>)
    requires
        state.halted(),
    ensures
        run(state, events).halted(),
        polls(state, events) == 0,
        started(state, events) == 0,
        stops(state, events) == 0,
    decreases events.len(),
{
    if events.len() > 0 {
        lemma_halted_is_final(after(state, events[0]), events.drop_first());
    }
}

/// The listener is told to stop exactly once: a run from a running state
/// has done so once if it ended halted, and not at all otherwise.
pub proof fn lemma_stops_once(state: Worker, events: Seq<Event>)
    requires
        state.running(),
    ensures
        stops(state, events) == (if run(state, events).halted() {
            1nat
        } else {
            0nat
        }),
    decreases events.len(),
{
    if events.len() > 0 {
        let to = after(state, events[0]);
        if to.halted() {
            lemma_halted_is_final(to, events.drop_first());
        } else {
            lemma_stops_once(to, events.drop_first());
        }
    }
}

/// The flag is seen only at the top of the loop, and seeing it down ends the
/// loop at once: the worker asks for the listener's stop and nothing else.
pub proof fn lemma_flag_down(state: Worker)
    ensures
        next(state, Event::Flag(false)) is Some <==> state == Worker::Ready,
        next(Worker::Ready, Event::Flag(false)) == Some(
            (Worker::Stopping, Action::StopListener),
        ),
{
}

/// The flag is looked at again soon: from any running state the worker is
/// back at the top of its loop after at most one wait on the queue and one
/// processing invocation.
pub proof fn lemma_flag_is_seen_soon(state: Worker, first: Event, second: Event)
    requires
        state.running(),
        next(state, first) is Some,
        next(after(state, first), second) is Some,
    ensures
        state == Worker::Ready || after(state, first) == Worker::Ready || after(
            after(state, first),
            second,
        ) == Worker::Ready,
{
}

} // verus!
