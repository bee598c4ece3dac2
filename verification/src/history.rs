//! The bounded work queue as a mathematical value, and what holds of every
//! history of calls on it.
//!
//! Producers and the consumer run concurrently, but each call on the queue
//! takes effect at one instant. A history is the calls in the order of those
//! instants; the laws below hold of every history, hence of every
//! interleaving.

use vstd::prelude::*;
use crate::admission::{answers, Response, SERVICE_UNAVAILABLE};
use crate::channel::Offer;
use crate::config::Config;

verus! {

/// The queue at one instant.
pub struct QueueState {
    /// The most items the queue holds.
    pub capacity: nat,
    /// The items in the queue, oldest first.
    pub items: Seq<String>,
    /// Whether the consumer is gone.
    pub closed: bool,
}

/// One call on the queue.
pub enum Call {
    /// A producer tries to enqueue this item.
    Offer(String),
    /// The consumer asks for the oldest item.
    Take,
    /// The consumer goes away.
    Close,
}

impl QueueState {
    /// The empty, open queue of the given capacity.
    pub open spec fn fresh(capacity: nat) -> QueueState {
        QueueState { capacity, items: Seq::empty(), closed: false }
    }

    /// The queue that a configuration starts with.
    pub open spec fn initial(config: Config) -> QueueState {
        QueueState::fresh(config.spec_capacity() as nat)
    }

    /// The queue holds no more than its capacity.
    pub open spec fn wf(self) -> bool {
        self.items.len() <= self.capacity
    }

    /// Whether an attempt to enqueue is rejected: at capacity, or closed.
    pub open spec fn saturated(self) -> bool {
        self.closed || self.items.len() >= self.capacity
    }

    /// An attempt to enqueue `item`: the queue afterwards and the outcome.
    pub open spec fn offer(self, item: String) -> (QueueState, Offer) {
        if self.closed {
            (self, Offer::Closed(item))
        } else if self.items.len() >= self.capacity {
            (self, Offer::Full(item))
        } else {
            (QueueState { items: self.items.push(item), ..self }, Offer::Enqueued)
        }
    }

    /// A dequeue: the queue afterwards and the item handed out, the oldest,
    /// or `None` where there is nothing to hand out.
    pub open spec fn take(self) -> (QueueState, Option<String>) {
        if self.closed || self.items.len() == 0 {
            (self, None)
        } else {
            (QueueState { items: self.items.drop_first(), ..self }, Some(self.items[0]))
        }
    }

    /// The queue after one call.
    pub open spec fn apply(self, call: Call) -> QueueState {
        match call {
            Call::Offer(item) => self.offer(item).0,
            Call::Take => self.take().0,
            Call::Close => QueueState { closed: true, ..self },
        }
    }

    /// The queue after a history of calls.
    pub open spec fn run(self, calls: Seq<Call>) -> QueueState
        decreases calls.len(),
    {
        if calls.len() == 0 {
            self
        } else {
            self.apply(calls[0]).run(calls.drop_first())
        }
    }

    /// The items whose enqueue attempt succeeded during a history, in the
    /// order of the attempts.
    pub open spec fn accepted(self, calls: Seq<Call>) -> Seq<String>
        decreases calls.len(),
    {
        if calls.len() == 0 {
            Seq::empty()
        } else {
            let rest = self.apply(calls[0]).accepted(calls.drop_first());
            match calls[0] {
                Call::Offer(item) => if self.offer(item).1.accepted() {
                    seq![item] + rest
                } else {
                    rest
                },
                _ => rest,
            }
        }
    }

    /// The items handed to the consumer during a history, in the order in
    /// which they were handed out.
    pub open spec fn delivered(self, calls: Seq<Call>) -> Seq<String>
        decreases calls.len(),
    {
        if calls.len() == 0 {
            Seq::empty()
        } else {
            let rest = self.apply(calls[0]).delivered(calls.drop_first());
            match calls[0] {
                Call::Take => match self.take().1 {
                    Some(item) => seq![item] + rest,
                    None => rest,
                },
                _ => rest,
            }
        }
    }
}

/// An enqueue attempt is rejected exactly when the queue is at capacity or
/// closed; the queue is then unchanged and the item comes back, and the
/// endpoint's answer is "service unavailable". Otherwise the item goes to
/// the back of the queue, which still holds no more than its capacity.
pub proof fn lemma_offer(q: QueueState, item: String, response: Response)
    requires
        q.wf(),
        answers(q.offer(item).1.accepted(), response),
    ensures
        q.offer(item).1.outcome_of(item),
        q.offer(item).0.wf(),
        !q.offer(item).1.accepted() <==> q.saturated(),
        q.saturated() <==> response.status == SERVICE_UNAVAILABLE,
        q.saturated() ==> q.offer(item).0 == q,
        !q.saturated() ==> q.offer(item).0.items == q.items.push(item),
{
}

/// At every instant of every history the queue holds no more than its
/// capacity, and the capacity never changes.
pub proof fn lemma_never_over_capacity(q: QueueState, calls: Seq<Call>)
    requires
        q.wf(),
    ensures
        q.run(calls).wf(),
        q.run(calls).capacity == q.capacity,
        forall|n: int| 0 <= n <= calls.len() ==> (#[trigger] q.run(calls.take(n))).wf(),
{
    lemma_bounded_run(q, calls);
    assert forall|n: int| 0 <= n <= calls.len() implies (#[trigger] q.run(calls.take(n))).wf() by {
        lemma_bounded_run(q, calls.take(n));
    }
}

/// The queue of a configuration never holds more than the configured
/// capacity, whatever the producers and the consumer do.
pub proof fn lemma_configured_queue(config: Config, calls: Seq<Call>)
    ensures
        QueueState::initial(config).run(calls).items.len() <= config.spec_capacity(),
{
    lemma_bounded_run(QueueState::initial(config), calls);
}

proof fn lemma_bounded_run(q: QueueState, calls: Seq<Call>)
    requires
        q.wf(),
    ensures
        q.run(calls).wf(),
        q.run(calls).capacity == q.capacity,
    decreases calls.len(),
{
    if calls.len() > 0 {
        lemma_bounded_run(q.apply(calls[0]), calls.drop_first());
    }
}

/// Nothing is lost, duplicated or reordered: in every history, what was in
/// the queue at the start followed by what was accepted is what was
/// delivered followed by what is still queued.
pub proof fn lemma_fifo(q: QueueState, calls: Seq<Call>)
    ensures
        q.items + q.accepted(calls) == q.delivered(calls) + q.run(calls).items,
    decreases calls.len(),
{
    if calls.len() == 0 {
        assert(q.items + Seq::<String>::empty() =~= Seq::<String>::empty() + q.items);
    } else {
        let next = q.apply(calls[0]);
        let rest = calls.drop_first();
        lemma_fifo(next, rest);
        let tail = next.delivered(rest) + next.run(rest).items;
        assert(next.items + next.accepted(rest) == tail);
        match calls[0] {
            Call::Offer(item) => {
                if q.offer(item).1.accepted() {
                    assert(q.items + (seq![item] + next.accepted(rest)) =~= q.items.push(item)
                        + next.accepted(rest));
                }
            },
            Call::Take => {
                match q.take().1 {
                    Some(item) => {
                        assert(q.items =~= seq![item] + next.items);
                        assert(q.items + next.accepted(rest) =~= seq![item] + (next.items
                            + next.accepted(rest)));
                        assert((seq![item] + next.delivered(rest)) + next.run(rest).items
                            =~= seq![item] + tail);
                    },
                    None => {},
                }
            },
            Call::Close => {},
        }
    }
}

/// From an empty queue, the items delivered are the first of the items
/// accepted, in the same order, and the rest are those still queued. So
/// never more are dequeued than were enqueued, and exactly as many once the
/// queue is drained.
pub proof fn lemma_delivery_order(capacity: nat, calls: Seq<Call>)
    ensures
        ({
            let q = QueueState::fresh(capacity);
            let accepted = q.accepted(calls);
            let delivered = q.delivered(calls);
            let queued = q.run(calls).items;
            &&& accepted == delivered + queued
            &&& delivered.len() + queued.len() == accepted.len()
            &&& delivered.len() <= accepted.len()
            &&& delivered == accepted.take(delivered.len() as int)
            &&& queued.len() <= capacity
            &&& (queued.len() == 0 ==> delivered == accepted)
        }),
{
    let q = QueueState::fresh(capacity);
    lemma_fifo(q, calls);
    lemma_bounded_run(q, calls);
    let accepted = q.accepted(calls);
    let delivered = q.delivered(calls);
    let queued = q.run(calls).items;
    assert(q.items + accepted =~= accepted);
    assert(accepted.take(delivered.len() as int) =~= delivered);
    if queued.len() == 0 {
        assert(delivered + queued =~= delivered);
    }
}

} // verus!
