//! The zero-payload signals exchanged with the surroundings of the server.

use vstd::prelude::*;

verus! {

/// Signal to cleanly terminate after finishing the current request (if any).
#[derive(Clone, Copy, Debug, PartialEq, Eq, Structural)]
pub struct Shutdown;

/// Signal that the server is ready to receive requests.
#[derive(Clone, Copy, Debug, PartialEq, Eq, Structural)]
pub struct Ready;

/// What one non-blocking look at the shutdown source found.
#[derive(Clone, Copy, Debug, PartialEq, Eq, Structural)]
pub enum ShutdownPoll {
    /// A shutdown request was waiting.
    Requested(Shutdown),
    /// Nothing was waiting; a request may still arrive later.
    Empty,
    /// Nothing was waiting and every sender is gone, so nothing ever will.
    Disconnected,
}

impl ShutdownPoll {
    /// Whether the serving loop stops after this look at the shutdown source.
    ///
    /// A disconnected source counts as a request: with no sender left, the
    /// loop could never be stopped otherwise.
    pub open spec fn stops(self) -> bool {
        self is Requested || self is Disconnected
    }
}

} // verus!
