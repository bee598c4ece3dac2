//! The admission endpoint: one non-blocking attempt to enqueue, answered
//! with "accepted" or "service unavailable".

use vstd::prelude::*;
use crossbeam::channel::Sender;
use crate::channel::{try_enqueue, Offer};

verus! {

/// Status of the answer to an admitted request.
pub const ACCEPTED: u16 = 202;

/// Status of the answer to a rejected request: the caller should back off.
pub const SERVICE_UNAVAILABLE: u16 = 503;

/// What the endpoint answers: a status code and a plain-text body.
#[derive(Clone, Copy, Debug, PartialEq, Eq)]
pub struct Response {
    pub status: u16,
    pub body: &'static str,
}

/// Body that confirms an admitted request.
pub open spec fn confirmation() -> Seq<char> {
    "Payload accepted."@
}

/// Body that tells the caller the queue is saturated.
pub open spec fn busy() -> Seq<char> {
    "Server busy."@
}

/// The answer owed to an attempt that was, or was not, accepted.
pub open spec fn answers(accepted: bool, response: Response) -> bool {
    if accepted {
        response.status == ACCEPTED && response.body@ == confirmation()
    } else {
        response.status == SERVICE_UNAVAILABLE && response.body@ == busy()
    }
}

/// Maps the outcome of an enqueue attempt to the answer: accepted when the
/// item went in, service unavailable when the queue was full or closed.
pub fn respond(offer: &Offer) -> (response: Response)
    ensures
        answers(offer.accepted(), response),
{
    match offer {
        Offer::Enqueued => Response { status: ACCEPTED, body: "Payload accepted." },
        _ => Response { status: SERVICE_UNAVAILABLE, body: "Server busy." },
    }
}

/// The handler of the root route: tries once, without blocking, to enqueue `item`
/// and answers by the outcome. Whether there was room is decided by the
/// queue, so the answer is one of the two, whatever the other threads did.
pub fn index(tx: &Sender<String>, item: String) -> (response: Response)
    ensures
        answers(true, response) || answers(false, response),
{
    let offer = try_enqueue(tx, item);
    respond(&offer)
}

} // verus!
