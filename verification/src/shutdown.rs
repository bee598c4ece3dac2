//! The shutdown flag: one boolean shared by the signal handler, which
//! lowers it, and the worker, which looks at it at the top of its loop.

use vstd::prelude::*;
use std::sync::atomic::{AtomicBool, Ordering};
use std::sync::Arc;
use crate::worker::{next, step, Action, Event, Worker};

verus! {

/// A handle on the flag. All handles made by `share` see the same flag.
/// Other threads may lower the flag at any moment, so a read promises
/// nothing about the next read.
pub struct ShutdownFlag {
    running: Arc<AtomicBool>,
}

impl ShutdownFlag {
    /// A new flag, raised: the service is running.
    pub fn new() -> (flag: ShutdownFlag) {
        ShutdownFlag { running: Arc::new(AtomicBool::new(true)) }
    }

    /// Another handle on the same flag, for the signal handler.
    pub fn share(&self) -> (flag: ShutdownFlag)
        ensures
            flag == *self,
    {
        ShutdownFlag { running: self.running.clone() }
    }

    /// Lowers the flag: the worker is to stop at its next look.
    pub fn request_stop(&self) {
        self.running.store(false, Ordering::SeqCst);
    }

    /// Whether the flag is still raised.
    pub fn is_running(&self) -> (b: bool) {
        self.running.load(Ordering::SeqCst)
    }
}

/// Carries out a `ReadFlag`: looks at the flag and steps the machine from
/// the top of its loop. With the flag raised the worker goes on to poll;
/// with the flag down it leaves the loop and asks for the listener's stop.
pub fn read_flag(flag: &ShutdownFlag) -> (r: (Worker, Action))
    ensures
        exists|raised: bool| next(Worker::Ready, Event::Flag(raised)) == Some(r),
        r == (Worker::Polling, Action::Poll) || r == (Worker::Stopping, Action::StopListener),
{
    let raised = flag.is_running();
    match step(Worker::Ready, Event::Flag(raised)) {
        Some(r) => r,
        None => unreached(),
    }
}

} // verus!
