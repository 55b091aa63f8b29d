//! The three discrete body shapes an inbound event may carry, and their
//! normalization to the single contiguous byte sequence the wrapped handler
//! expects.

use vstd::prelude::*;
use vstd::slice::slice_to_vec;
use vstd::utf8::encode_utf8;

verus! {

/// Body payload of an inbound event. Exactly one shape is active: absent,
/// textual (valid encoded text), or raw binary bytes.
pub enum RequestBody {
    /// No body was delivered with the event.
    Empty,
    /// A textual body; its semantic content is its UTF-8 byte encoding.
    Text(String),
    /// A raw binary body, passed through byte for byte.
    Binary(Vec<u8>),
}

/// The semantic byte content of a body payload: the empty sequence for an
/// absent body, the UTF-8 encoding for a textual body, and the bytes
/// themselves for a binary body.
pub open spec fn body_content(b: RequestBody) -> Seq<u8> {
    match b {
        RequestBody::Empty => Seq::<u8>::empty(),
        RequestBody::Text(t) => encode_utf8(t@),
        RequestBody::Binary(d) => d@,
    }
}

/// Normalizes a body payload to its semantic byte content.
pub fn normalize_body(b: RequestBody) -> (r: Vec<u8>)
    ensures
        r@ == body_content(b),
{
    match b {
        RequestBody::Empty => Vec::new(),
        RequestBody::Text(t) => slice_to_vec(t.as_str().as_bytes()),
        RequestBody::Binary(d) => d,
    }
}

/// Round-trip body fidelity, spelled out per shape: an absent body normalizes
/// to zero bytes, a textual body to exactly its UTF-8 encoding, and a binary
/// body to exactly its own bytes.
pub proof fn lemma_body_content_shapes(b: RequestBody)
    ensures
        b matches RequestBody::Empty ==> body_content(b).len() == 0,
        b matches RequestBody::Text(t) ==> body_content(b) == encode_utf8(t@),
        b matches RequestBody::Binary(d) ==> body_content(b) == d@,
{
}

} // verus!
