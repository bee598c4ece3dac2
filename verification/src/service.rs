//! The queue and the worker together: requests arrive at the endpoint while
//! the worker goes round its loop. What holds of every interleaving of the
//! two.

use vstd::prelude::*;
use crate::config::Config;
use crate::history::QueueState;
use crate::schedule::after;
use crate::worker::{arrival_of, Event, Worker};

verus! {

/// The service at one instant.
pub struct Service {
    /// The work queue.
    pub queue: QueueState,
    /// Where the worker stands.
    pub worker: Worker,
}

/// One thing that happens to the service.
pub enum Happening {
    /// A request reaches the endpoint with this item.
    Request(String),
    /// The worker reads the shutdown flag: `true` while raised.
    Look(bool),
    /// The worker's timed wait on the queue ends.
    Wait,
    /// The processing operation returns.
    Finish,
    /// The listener finishes its graceful stop.
    ListenerStopped,
}

impl Service {
    /// The service as it starts: an empty queue and a worker at the top of
    /// its loop.
    pub open spec fn start(config: Config) -> Service {
        Service { queue: QueueState::initial(config), worker: Worker::Ready }
    }

    /// Whether the worker is waiting on the queue, the only time it takes
    /// from it.
    pub open spec fn waiting(self) -> bool {
        self.worker == Worker::Polling
    }

    /// The item that a happening hands to the processing operation, if any:
    /// the oldest in the queue, when the worker's wait ends on a queue that
    /// holds one.
    pub open spec fn handed_over(self, happening: Happening) -> Option<String> {
        match happening {
            Happening::Wait => if self.waiting() {
                self.queue.take().1
            } else {
                None
            },
            _ => None,
        }
    }

    /// The service after one happening. One that cannot occur where the
    /// worker stands changes nothing.
    pub open spec fn advance(self, happening: Happening) -> Service {
        match happening {
            Happening::Request(item) => Service { queue: self.queue.offer(item).0, ..self },
            Happening::Look(raised) => Service {
                worker: after(self.worker, Event::Flag(raised)),
                ..self
            },
            Happening::Wait => if self.waiting() {
                Service {
                    queue: self.queue.take().0,
                    worker: after(self.worker, arrival_of(self.queue.take().1)),
                }
            } else {
                self
            },
            Happening::Finish => Service { worker: after(self.worker, Event::Processed), ..self },
            Happening::ListenerStopped => Service {
                worker: after(self.worker, Event::ListenerStopped),
                ..self
            },
        }
    }

    /// The service after a sequence of happenings.
    pub open spec fn run(self, happenings: Seq<Happening>) -> Service
        decreases happenings.len(),
    {
        if happenings.len() == 0 {
            self
        } else {
            self.advance(happenings[0]).run(happenings.drop_first())
        }
    }

    /// The items of the requests that were accepted, in order of arrival.
    pub open spec fn admitted(self, happenings: Seq<Happening>) -> Seq<String>
        decreases happenings.len(),
    {
        if happenings.len() == 0 {
            Seq::empty()
        } else {
            let rest = self.advance(happenings[0]).admitted(happenings.drop_first());
            match happenings[0] {
                Happening::Request(item) => if self.queue.offer(item).1.accepted() {
                    seq![item] + rest
                } else {
                    rest
                },
                _ => rest,
            }
        }
    }

    /// The items handed to the processing operation, in the order in which
    /// it got them.
    pub open spec fn processed(self, happenings: Seq<Happening>) -> Seq<String>
        decreases happenings.len(),
    {
        if happenings.len() == 0 {
            Seq::empty()
        } else {
            let rest = self.advance(happenings[0]).processed(happenings.drop_first());
            match self.handed_over(happenings[0]) {
                Some(item) => seq![item] + rest,
                None => rest,
            }
        }
    }
}

/// An item is handed to the processing operation only by a worker that was
/// waiting, which is then busy with it: no second item can follow until the
/// first is finished.
pub proof fn lemma_handover_makes_busy(service: Service, happening: Happening)
    requires
        service.handed_over(happening) is Some,
    ensures
        service.worker == Worker::Polling,
        service.advance(happening).worker == Worker::Busy,
        service.queue.items.len() > 0,
        service.handed_over(happening) == Some(service.queue.items[0]),
        service.advance(happening).queue.items == service.queue.items.drop_first(),
        forall|later: Happening| (#[trigger] service.advance(happening).handed_over(later)) is None,
{
}

/// Work is processed in the order in which it was admitted, each item once:
/// whatever the interleaving, what was queued at the start followed by what
/// was admitted is what was processed followed by what is still queued.
pub proof fn lemma_processed_in_order(service: Service, happenings: Seq<Happening>)
    ensures
        service.queue.items + service.admitted(happenings) == service.processed(happenings)
            + service.run(happenings).queue.items,
    decreases happenings.len(),
{
    if happenings.len() == 0 {
        assert(service.queue.items + Seq::<String>::empty() =~= Seq::<String>::empty()
            + service.queue.items);
    } else {
        let then = service.advance(happenings[0]);
        let rest = happenings.drop_first();
        lemma_processed_in_order(then, rest);
        let tail = then.processed(rest) + then.run(rest).queue.items;
        match happenings[0] {
            Happening::Request(item) => {
                if service.queue.offer(item).1.accepted() {
                    assert(service.queue.items + (seq![item] + then.admitted(rest))
                        =~= service.queue.items.push(item) + then.admitted(rest));
                }
            },
            _ => {
                match service.handed_over(happenings[0]) {
                    Some(item) => {
                        assert(service.queue.items =~= seq![item] + then.queue.items);
                        assert(service.queue.items + then.admitted(rest) =~= seq![item] + (
                        then.queue.items + then.admitted(rest)));
                        assert((seq![item] + then.processed(rest)) + then.run(rest).queue.items
                            =~= seq![item] + tail);
                    },
                    None => {
                        assert(then.queue == service.queue);
                    },
                }
            },
        }
    }
}

/// From the start, the items processed are the first of the items admitted,
/// in the same order; the others are still queued, never more of them than
/// the configured capacity.
pub proof fn lemma_service_order(config: Config, happenings: Seq<Happening>)
    ensures
        ({
            let service = Service::start(config);
            let admitted = service.admitted(happenings);
            let processed = service.processed(happenings);
            let queued = service.run(happenings).queue.items;
            &&& admitted == processed + queued
            &&& processed.len() <= admitted.len()
            &&& processed == admitted.take(processed.len() as int)
            &&& queued.len() <= config.spec_capacity()
        }),
{
    let service = Service::start(config);
    lemma_processed_in_order(service, happenings);
    lemma_queue_stays_bounded(service, happenings);
    let admitted = service.admitted(happenings);
    let processed = service.processed(happenings);
    assert(service.queue.items + admitted =~= admitted);
    assert(admitted.take(processed.len() as int) =~= processed);
}

/// The queue of a running service never holds more than its capacity.
pub proof fn lemma_queue_stays_bounded(service: Service, happenings: Seq<Happening>)
    requires
        service.queue.wf(),
    ensures
        service.run(happenings).queue.wf(),
        service.run(happenings).queue.capacity == service.queue.capacity,
    decreases happenings.len(),
{
    if happenings.len() > 0 {
        lemma_queue_stays_bounded(service.advance(happenings[0]), happenings.drop_first());
    }
}

/// Once the worker has seen the flag down it takes nothing more from the
/// queue: whatever happens afterwards, no item is handed to the processing
/// operation, and what is queued stays queued.
pub proof fn lemma_nothing_taken_after_shutdown(service: Service, happenings: Seq<Happening>)
    requires
        service.worker.halted(),
    ensures
        service.run(happenings).worker.halted(),
        service.processed(happenings) == Seq::<String>::empty(),
        service.run(happenings).queue.items == service.queue.items + service.admitted(
            happenings,
        ),
{
    lemma_processed_in_order(service, happenings);
    lemma_halted_takes_nothing(service, happenings);
    assert(Seq::<String>::empty() + service.run(happenings).queue.items
        =~= service.run(happenings).queue.items);
}

proof fn lemma_halted_takes_nothing(service: Service, happenings: Seq<Happening>)
    requires
        service.worker.halted(),
    ensures
        service.run(happenings).worker.halted(),
        service.processed(happenings) == Seq::<String>::empty(),
    decreases happenings.len(),
{
    if happenings.len() > 0 {
        lemma_halted_takes_nothing(service.advance(happenings[0]), happenings.drop_first());
    }
}

} // verus!
