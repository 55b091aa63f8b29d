//! The readiness contract and the handler's completion outcome.
//!
//! The wrapped handler exposes a non-blocking readiness probe with exactly
//! two legal outcomes in this domain: ready, or not yet ready. Its failure
//! outcome exists in the probe's shape but is a documented impossibility of
//! the wrapped capability, so the adapter's readiness decision excludes it by
//! precondition; the host glue aborts if it ever observes one. Likewise the
//! handler's error channel is modeled as a variant the adapter never
//! converts into an outbound event: an invocation fault is excluded by
//! precondition, and the host glue aborts on it as documented.

use vstd::prelude::*;
use vstd::pervasive::unreached;

verus! {

/// What the wrapped handler's readiness probe reported.
pub enum HandlerPoll {
    /// The handler can accept an invocation.
    Ready,
    /// The handler is not yet ready; the driver must suspend and re-poll.
    Pending,
    /// The probe's failure outcome: defined by the probe's shape, but a
    /// documented impossibility of the wrapped capability.
    Failed,
}

/// What the adapter reports to the runtime driver.
pub enum Readiness {
    /// The adapter can accept an event.
    Ready,
    /// The driver must suspend and re-poll.
    Pending,
}

/// Readiness passthrough: the adapter reports ready exactly when the wrapped
/// handler reports ready, and not yet ready exactly when the handler does.
/// The probe's failure outcome is excluded by precondition: it is a
/// documented impossibility, not a recoverable condition.
pub fn adapt_readiness(p: HandlerPoll) -> (r: Readiness)
    requires
        !(p matches HandlerPoll::Failed),
    ensures
        (r matches Readiness::Ready) <==> (p matches HandlerPoll::Ready),
        (r matches Readiness::Pending) <==> (p matches HandlerPoll::Pending),
{
    match p {
        HandlerPoll::Ready => Readiness::Ready,
        HandlerPoll::Pending => Readiness::Pending,
        HandlerPoll::Failed => unreached(),
    }
}

/// How the wrapped handler's invocation completed: a response value, or the
/// error channel. For an infallible handler the fault variant is never
/// constructed; for a fallible one it is an unrecoverable internal fault.
pub enum HandlerOutcome<R> {
    /// The handler produced a response.
    Success(R),
    /// The handler's error channel fired.
    Fault,
}

/// Extracts the handler's response. A fault is excluded by precondition: the
/// adapter does not synthesize an error response for it, so the host glue
/// must test the outcome and abort before reaching this point.
pub fn into_success<R>(o: HandlerOutcome<R>) -> (r: R)
    requires
        o matches HandlerOutcome::Success(_),
    ensures
        o matches HandlerOutcome::Success(v) && r == v,
{
    match o {
        HandlerOutcome::Success(v) => v,
        HandlerOutcome::Fault => unreached(),
    }
}

} // verus!
