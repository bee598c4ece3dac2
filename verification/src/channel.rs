//! The bounded work queue: a fixed-capacity channel shared by many producers
//! and one consumer.
//!
//! The channel itself is the `crossbeam` bounded channel. Its two ends are
//! shared between threads, so what a call returns depends on what the other
//! threads did. Apart from the capacity, which is fixed when the channel is
//! made, the contracts here say only what holds of every outcome.

use vstd::prelude::*;
use crossbeam::channel::{Receiver, Sender, TrySendError};
use crate::config::{Config, MAX_CAPACITY, MAX_POLL_MILLIS};

verus! {

/// The sending end of a `crossbeam` channel, opaque to the verifier.
#[verifier::external_type_specification]
#[verifier::external_body]
#[verifier::reject_recursive_types(T)]
pub struct ExSender<T>(crossbeam::channel::Sender<T>);

/// The receiving end of a `crossbeam` channel, opaque to the verifier.
#[verifier::external_type_specification]
#[verifier::external_body]
#[verifier::reject_recursive_types(T)]
pub struct ExReceiver<T>(crossbeam::channel::Receiver<T>);

/// The capacity the channel behind a sending end was created with, `None`
/// for a channel without a bound.
pub uninterp spec fn channel_capacity(tx: Sender<String>) -> Option<usize>;

/// Whether a number of queued items respects a capacity.
pub open spec fn fits(len: usize, capacity: Option<usize>) -> bool {
    match capacity {
        Some(most) => len <= most,
        None => true,
    }
}

/// What became of one attempt to enqueue a work item.
#[derive(Debug, PartialEq, Eq)]
pub enum Offer {
    /// The item is now in the queue.
    Enqueued,
    /// The queue was at capacity; the item comes back.
    Full(String),
    /// The consumer is gone; the item comes back.
    Closed(String),
}

impl Offer {
    /// Whether the item went into the queue.
    pub open spec fn accepted(self) -> bool {
        self is Enqueued
    }

    /// Every outcome an attempt to enqueue `item` can have: a rejection
    /// hands the very same item back.
    pub open spec fn outcome_of(self, item: String) -> bool {
        match self {
            Offer::Enqueued => true,
            Offer::Full(back) => back == item,
            Offer::Closed(back) => back == item,
        }
    }

    /// Whether the item went into the queue.
    pub fn is_accepted(&self) -> (b: bool)
        ensures
            b == self.accepted(),
    {
        match self {
            Offer::Enqueued => true,
            _ => false,
        }
    }

    /// The item that a rejection handed back, `None` after a success.
    pub fn into_rejected(self) -> (r: Option<String>)
        ensures
            r == match self {
                Offer::Enqueued => None,
                Offer::Full(back) => Some(back),
                Offer::Closed(back) => Some(back),
            },
    {
        match self {
            Offer::Enqueued => None,
            Offer::Full(back) => Some(back),
            Offer::Closed(back) => Some(back),
        }
    }
}

/// Calls `crossbeam::channel::bounded`, which builds a channel of exactly
/// the given capacity and returns its two ends. The bound on `capacity`
/// keeps the slot arithmetic and the allocation in range.
#[verifier::external_body]
fn bounded(capacity: usize) -> (ends: (Sender<String>, Receiver<String>))
    requires
        capacity <= MAX_CAPACITY,
    ensures
        channel_capacity(ends.0) == Some(capacity),
{
    crossbeam::channel::bounded(capacity)
}

/// Calls `Sender::capacity`, which returns the capacity the channel was
/// created with.
#[verifier::external_body]
fn capacity(tx: &Sender<String>) -> (most: Option<usize>)
    ensures
        most == channel_capacity(*tx),
{
    tx.capacity()
}

/// Calls `Sender::len`, the number of messages in the channel at the moment
/// of the call. Other threads change it at will, but a bounded channel never
/// reports more than its capacity.
#[verifier::external_body]
fn len(tx: &Sender<String>) -> (n: usize)
    ensures
        fits(n, channel_capacity(*tx)),
{
    tx.len()
}

/// Calls `Sender::try_send`, which never blocks. It either puts the message
/// into the channel or returns it inside the error, `Full` or `Disconnected`.
/// Which of the three happens depends on the other threads.
#[verifier::external_body]
fn try_send(tx: &Sender<String>, item: String) -> (offer: Offer)
    ensures
        offer.outcome_of(item),
{
    match tx.try_send(item) {
        Ok(()) => Offer::Enqueued,
        Err(TrySendError::Full(back)) => Offer::Full(back),
        Err(TrySendError::Disconnected(back)) => Offer::Closed(back),
    }
}

/// Calls `Receiver::recv_timeout`, which waits up to the given time for a
/// message. It adds the time to the current instant, which the bound on
/// `millis` keeps representable. Nothing is promised of the result: it is
/// `None` on a timeout and when every sender is gone.
#[verifier::external_body]
fn recv_timeout(rx: &Receiver<String>, millis: u64) -> (item: Option<String>)
    requires
        millis <= MAX_POLL_MILLIS,
{
    rx.recv_timeout(std::time::Duration::from_millis(millis)).ok()
}

/// Creates the work queue of the configured capacity and returns its two
/// ends: the producers' and the consumer's.
pub fn work_queue(config: &Config) -> (ends: (Sender<String>, Receiver<String>))
    ensures
        channel_capacity(ends.0) == Some(config.spec_capacity()),
{
    bounded(config.capacity())
}

/// The capacity the queue was created with.
pub fn queue_capacity(tx: &Sender<String>) -> (most: Option<usize>)
    ensures
        most == channel_capacity(*tx),
{
    capacity(tx)
}

/// The number of items queued at the moment of the call: at every instant
/// no more than the capacity.
pub fn queue_len(tx: &Sender<String>) -> (n: usize)
    ensures
        fits(n, channel_capacity(*tx)),
{
    len(tx)
}

/// Tries to enqueue `item` without blocking. A rejection, because the queue
/// is at capacity or closed, hands the item back.
pub fn try_enqueue(tx: &Sender<String>, item: String) -> (offer: Offer)
    ensures
        offer.outcome_of(item),
{
    try_send(tx, item)
}

/// Waits up to the configured poll interval for the next item; `None` when
/// none arrived in time.
pub fn dequeue_with_timeout(rx: &Receiver<String>, config: &Config) -> (item: Option<String>)
{
    recv_timeout(rx, config.poll_millis())
}

} // verus!
