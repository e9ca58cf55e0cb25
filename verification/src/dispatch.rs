//! The dispatch loop's decision logic.
//!
//! The loop alternates between two states: waiting on the transport's
//! readiness primitive, and draining all buffered decoded events into the
//! trackers. The blocking calls themselves (the readiness wait and the
//! socket read) are outside work; the embedder performs them and feeds the
//! outcome of each back in as a [`TransportEvent`], then carries out the
//! [`DispatchAction`] decided here.

use vstd::prelude::*;

verus! {

/// What the transport reported at one step of the wait cycle.
#[derive(Debug, Clone, Copy, PartialEq, Eq, Structural)]
pub enum TransportEvent {
    /// Decoded events are already buffered, so no socket read is needed
    /// before draining.
    BufferedEventsPending,
    /// The readiness wait ended: the transport has data to read.
    PollReady,
    /// The readiness wait was interrupted before anything was ready.
    PollInterrupted,
    /// The readiness wait itself failed.
    PollFailed,
    /// The socket read completed and buffered freshly decoded events.
    ReadComplete,
    /// The socket read would have blocked: no events were produced.
    ReadWouldBlock,
    /// The socket read failed with a transport-level error.
    ReadFailed,
}

/// What the dispatch loop does next.
#[derive(Debug, Clone, Copy, PartialEq, Eq, Structural)]
pub enum DispatchAction {
    /// Apply every buffered decoded event to the trackers, in delivery
    /// order and under the guard, then return to waiting.
    DrainEvents,
    /// Retry the readiness wait: the interruption produced nothing.
    RetryWait,
    /// Attempt the socket read: the transport signalled readability.
    AttemptRead,
    /// Return to the start of the wait cycle without draining: no events
    /// were produced.
    Restart,
    /// Fatal: the protocol connection is essential and this error is not
    /// retried, so the process terminates.
    Abort,
}

/// The loop's transition function. A would-block read restarts the wait
/// silently; an interrupted wait is retried; every other failure of the
/// wait or the read is fatal. Draining happens exactly when events are
/// known to be buffered.
pub open spec fn spec_dispatch_decision(event: TransportEvent) -> DispatchAction {
    match event {
        TransportEvent::BufferedEventsPending => DispatchAction::DrainEvents,
        TransportEvent::PollReady => DispatchAction::AttemptRead,
        TransportEvent::PollInterrupted => DispatchAction::RetryWait,
        TransportEvent::PollFailed => DispatchAction::Abort,
        TransportEvent::ReadComplete => DispatchAction::DrainEvents,
        TransportEvent::ReadWouldBlock => DispatchAction::Restart,
        TransportEvent::ReadFailed => DispatchAction::Abort,
    }
}

/// Decides the loop's next action from what the transport reported.
pub fn dispatch_decision(event: TransportEvent) -> (r: DispatchAction)
    ensures
        r == spec_dispatch_decision(event),
{
    match event {
        TransportEvent::BufferedEventsPending => DispatchAction::DrainEvents,
        TransportEvent::PollReady => DispatchAction::AttemptRead,
        TransportEvent::PollInterrupted => DispatchAction::RetryWait,
        TransportEvent::PollFailed => DispatchAction::Abort,
        TransportEvent::ReadComplete => DispatchAction::DrainEvents,
        TransportEvent::ReadWouldBlock => DispatchAction::Restart,
        TransportEvent::ReadFailed => DispatchAction::Abort,
    }
}

} // verus!
