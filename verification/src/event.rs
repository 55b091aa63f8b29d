//! Event and request shapes on the two sides of the adapter, and the decoding
//! of an inbound event into the request the wrapped handler expects.
//!
//! The header/metadata block (method, path, query, headers) is opaque to the
//! adapter and passed through unchanged, so the shapes are generic over it:
//! everything proved here holds for whatever metadata representation the host
//! glue instantiates.

use vstd::prelude::*;
use crate::body::{RequestBody, body_content, normalize_body};

verus! {

/// An event as the runtime delivers it: an opaque header/metadata block plus
/// a body payload in one of three shapes.
pub struct InboundEvent<M> {
    /// Header/metadata block, passed through to the handler unchanged.
    pub meta: M,
    /// Body payload; exactly one of the three shapes is active.
    pub body: RequestBody,
}

/// The request handed to the wrapped handler: the inbound event's metadata
/// unchanged, plus the body normalized to a single contiguous byte sequence.
pub struct GenericRequest<M> {
    /// Header/metadata block, byte-identical to the inbound event's.
    pub meta: M,
    /// The normalized body bytes.
    pub body: Vec<u8>,
}

/// An event as the runtime accepts it back: an opaque header/metadata block
/// plus a single, fully materialized binary body. No partial or streaming
/// form is legal here.
pub struct OutboundEvent<M> {
    /// Header/metadata block, byte-identical to the handler's response.
    pub meta: M,
    /// The complete response body as one binary payload.
    pub body: Vec<u8>,
}

/// Decodes an inbound event into the request the wrapped handler expects:
/// the metadata block is passed through unchanged and the body payload is
/// normalized to its semantic byte content (absent becomes empty, text
/// becomes its UTF-8 encoding, binary passes through byte for byte).
pub fn decode_event<M>(e: InboundEvent<M>) -> (r: GenericRequest<M>)
    ensures
        r.meta == e.meta,
        r.body@ == body_content(e.body),
{
    let InboundEvent { meta, body } = e;
    GenericRequest { meta, body: normalize_body(body) }
}

} // verus!
