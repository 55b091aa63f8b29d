//! Request/response adapter between a serverless runtime's event envelope and
//! a generic HTTP handler capability.
//!
//! The runtime delivers each incoming invocation as an event whose body is one
//! of three discrete shapes (absent, textual, binary). The wrapped handler
//! expects a request carrying a single contiguous byte body. This crate holds
//! the verified translation core: body normalization, header/metadata
//! passthrough, readiness passthrough, and the ordered reassembly of a chunked
//! response body into the single binary body the runtime requires. The host
//! glue that speaks to the actual runtime (asynchronous dispatch, the event
//! loop) lives outside the library and drives these functions.

use vstd::prelude::*;

pub mod body;
pub mod drain;
pub mod event;
pub mod handler;

verus! {

/// Wrapper around a handler capability. The host glue implements the
/// runtime-facing service interface on top of it, delegating every decision
/// (readiness, body normalization, response reassembly) to the verified
/// functions of this crate.
pub struct Adapter<S>(pub S);

/// Builds an [`Adapter`] around the supplied handler capability.
pub fn service_fn<S>(s: S) -> (r: Adapter<S>)
    ensures
        r.0 == s,
{
    Adapter(s)
}

} // verus!
