//! The outcome of polling asynchronous work.

use vstd::prelude::*;

verus! {

/// What one poll of pending work yields: its value, or nothing yet.
#[derive(Debug)]
pub enum Async<T> {
    /// The work has completed with this value.
    Ready(T),
    /// The work has not completed; it is to be polled again later.
    NotReady,
}

impl<T> Async<T> {
    /// Tells whether the work has completed.
    pub fn is_ready(&self) -> (r: bool)
        ensures
            r == (self is Ready),
    {
        match self {
            Async::Ready(_) => true,
            Async::NotReady => false,
        }
    }

    /// Tells whether the work is still pending.
    pub fn is_not_ready(&self) -> (r: bool)
        ensures
            r == (self is NotReady),
    {
        !self.is_ready()
    }
}

} // verus!
