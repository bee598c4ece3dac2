//! The worker loop as a state machine. The machine decides; whoever drives
//! it reads the shutdown flag, runs the processing operation and stops the
//! listener, and reports back what happened.

use vstd::prelude::*;
use crossbeam::channel::Receiver;
use crate::channel::dequeue_with_timeout;
use crate::config::Config;

verus! {

/// Where the worker stands. `Ready`, `Polling` and `Busy` make up the
/// running phase.
#[derive(Clone, Copy, PartialEq, Eq, Structural, Debug)]
pub enum Worker {
    /// At the top of the loop, about to look at the shutdown flag.
    Ready,
    /// The flag said "running"; waiting on the queue with a timeout.
    Polling,
    /// Processing the one item in flight.
    Busy,
    /// The loop is over; the listener was told to stop gracefully.
    Stopping,
    /// The listener has stopped. Terminal.
    Exited,
}

/// What the driver reports to the machine.
#[derive(Debug, PartialEq, Eq)]
pub enum Event {
    /// The shutdown flag as just read: `true` while running.
    Flag(bool),
    /// The timed wait produced this item.
    Item(String),
    /// The timed wait ended without an item.
    TimedOut,
    /// The processing operation returned.
    Processed,
    /// The listener finished its graceful stop.
    ListenerStopped,
}

/// What the machine asks the driver to do next.
#[derive(Debug, PartialEq, Eq)]
pub enum Action {
    /// Read the shutdown flag and report it.
    ReadFlag,
    /// Wait on the queue for one poll interval and report the result.
    Poll,
    /// Run the processing operation on this item, to completion.
    Process(String),
    /// Tell the listener to stop gracefully and wait for it.
    StopListener,
    /// Nothing is left to do: leave.
    Exit,
}

/// The transition relation: the state and action that follow an event, or
/// `None` where the event cannot occur in that state.
pub open spec fn next(state: Worker, event: Event) -> Option<(Worker, Action)> {
    match (state, event) {
        (Worker::Ready, Event::Flag(true)) => Some((Worker::Polling, Action::Poll)),
        (Worker::Ready, Event::Flag(false)) => Some((Worker::Stopping, Action::StopListener)),
        (Worker::Polling, Event::Item(item)) => Some((Worker::Busy, Action::Process(item))),
        (Worker::Polling, Event::TimedOut) => Some((Worker::Ready, Action::ReadFlag)),
        (Worker::Busy, Event::Processed) => Some((Worker::Ready, Action::ReadFlag)),
        (Worker::Stopping, Event::ListenerStopped) => Some((Worker::Exited, Action::Exit)),
        _ => None,
    }
}

/// The event that reports the result of a timed wait.
pub open spec fn arrival_of(polled: Option<String>) -> Event {
    match polled {
        Some(item) => Event::Item(item),
        None => Event::TimedOut,
    }
}

impl Worker {
    /// A worker at the top of its loop.
    pub fn new() -> (w: Worker)
        ensures
            w == Worker::Ready,
    {
        Worker::Ready
    }

    /// Whether the worker is in its running phase.
    pub open spec fn running(self) -> bool {
        self == Worker::Ready || self == Worker::Polling || self == Worker::Busy
    }

    /// Whether the worker has left its loop for good.
    pub open spec fn halted(self) -> bool {
        self == Worker::Stopping || self == Worker::Exited
    }

    /// Whether the worker is in its running phase.
    pub fn is_running(self) -> (b: bool)
        ensures
            b == self.running(),
    {
        match self {
            Worker::Ready | Worker::Polling | Worker::Busy => true,
            _ => false,
        }
    }

    /// Whether the worker has reached its terminal state.
    pub fn is_exited(self) -> (b: bool)
        ensures
            b == (self == Worker::Exited),
    {
        match self {
            Worker::Exited => true,
            _ => false,
        }
    }
}

/// The action a fresh worker starts with.
pub fn first_action() -> (a: Action)
    ensures
        a == Action::ReadFlag,
{
    Action::ReadFlag
}

/// Takes one step: the state and action that follow `event`, or `None`
/// where the event cannot occur in `state`.
pub fn step(state: Worker, event: Event) -> (r: Option<(Worker, Action)>)
    ensures
        r == next(state, event),
{
    match state {
        Worker::Ready => match event {
            Event::Flag(true) => Some((Worker::Polling, Action::Poll)),
            Event::Flag(false) => Some((Worker::Stopping, Action::StopListener)),
            _ => None,
        },
        Worker::Polling => match event {
            Event::Item(item) => Some((Worker::Busy, Action::Process(item))),
            Event::TimedOut => Some((Worker::Ready, Action::ReadFlag)),
            _ => None,
        },
        Worker::Busy => match event {
            Event::Processed => Some((Worker::Ready, Action::ReadFlag)),
            _ => None,
        },
        Worker::Stopping => match event {
            Event::ListenerStopped => Some((Worker::Exited, Action::Exit)),
            _ => None,
        },
        Worker::Exited => None,
    }
}

/// The event that reports the result of a timed wait.
pub fn arrival(polled: Option<String>) -> (e: Event)
    ensures
        e == arrival_of(polled),
{
    match polled {
        Some(item) => Event::Item(item),
        None => Event::TimedOut,
    }
}

/// Carries out a `Poll`: waits on the queue for one poll interval and steps
/// the machine with what came. Whether an item arrives is up to the
/// producers; either way the step is the one `next` gives for that arrival.
pub fn poll(rx: &Receiver<String>, config: &Config) -> (r: (Worker, Action))
    ensures
        exists|polled: Option<String>|
            next(Worker::Polling, arrival_of(polled)) == Some(r),
        r.0 == Worker::Busy && r.1 is Process || r == (Worker::Ready, Action::ReadFlag),
{
    let polled = dequeue_with_timeout(rx, config);
    let event = arrival(polled);
    match step(Worker::Polling, event) {
        Some(r) => r,
        None => unreached(),
    }
}

} // verus!
