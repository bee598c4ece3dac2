//! Tunable limits of the service and their defaults.

use vstd::prelude::*;

verus! {

/// Largest queue capacity a configuration may ask for.
pub const MAX_CAPACITY: usize = 65_536;

/// Longest poll interval, in milliseconds, a configuration may ask for (one day).
pub const MAX_POLL_MILLIS: u64 = 86_400_000;

/// Default number of work items the queue holds.
pub const DEFAULT_CAPACITY: usize = 5;

/// Default time, in milliseconds, the worker waits for an item before it
/// looks at the shutdown flag again.
pub const DEFAULT_POLL_MILLIS: u64 = 1_000;

/// Number of processing invocations that may be active at once.
pub const WORKERS: usize = 1;

/// Capacity of the one-shot channel on which the listener publishes its handle.
pub const HANDOFF_CAPACITY: usize = 1;

/// Address the listener binds to.
pub const BIND_ADDRESS: &'static str = "127.0.0.1:8080";

/// Whether a capacity and a poll interval are within the limits.
pub open spec fn within_limits(capacity: usize, poll_millis: u64) -> bool {
    1 <= capacity <= MAX_CAPACITY && poll_millis <= MAX_POLL_MILLIS
}

/// Queue capacity and poll interval, always within the limits.
#[derive(Clone, Copy, Debug)]
pub struct Config {
    capacity: usize,
    poll_millis: u64,
}

impl Config {
    #[verifier::type_invariant]
    spec fn limits_hold(self) -> bool {
        within_limits(self.capacity, self.poll_millis)
    }

    /// The configured queue capacity.
    pub closed spec fn spec_capacity(&self) -> usize {
        self.capacity
    }

    /// The configured poll interval in milliseconds.
    pub closed spec fn spec_poll_millis(&self) -> u64 {
        self.poll_millis
    }

    /// A configuration with the given values, or `None` when either is
    /// outside the limits.
    pub fn new(capacity: usize, poll_millis: u64) -> (r: Option<Config>)
        ensures
            r is Some <==> within_limits(capacity, poll_millis),
            r is Some ==> r.unwrap().spec_capacity() == capacity
                && r.unwrap().spec_poll_millis() == poll_millis,
    {
        if 1 <= capacity && capacity <= MAX_CAPACITY && poll_millis <= MAX_POLL_MILLIS {
            Some(Config { capacity, poll_millis })
        } else {
            None
        }
    }

    /// Number of work items the queue holds.
    #[verifier::when_used_as_spec(spec_capacity)]
    pub fn capacity(&self) -> (c: usize)
        ensures
            c == self.spec_capacity(),
            1 <= c <= MAX_CAPACITY,
    {
        proof {
            use_type_invariant(self);
        }
        self.capacity
    }

    /// Milliseconds the worker waits for an item on each poll.
    #[verifier::when_used_as_spec(spec_poll_millis)]
    pub fn poll_millis(&self) -> (m: u64)
        ensures
            m == self.spec_poll_millis(),
            m <= MAX_POLL_MILLIS,
    {
        proof {
            use_type_invariant(self);
        }
        self.poll_millis
    }
}

impl Default for Config {
    /// Capacity 5 and a poll interval of one second.
    fn default() -> (c: Config)
        ensures
            c.spec_capacity() == DEFAULT_CAPACITY,
            c.spec_poll_millis() == DEFAULT_POLL_MILLIS,
    {
        Config { capacity: DEFAULT_CAPACITY, poll_millis: DEFAULT_POLL_MILLIS }
    }
}

} // verus!
