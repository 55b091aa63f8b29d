//! Ordered reassembly of a chunked response body into the single binary body
//! the runtime requires.
//!
//! The wrapped handler's response body is a finite, non-restartable producer
//! of byte chunks. The host glue pulls chunks one at a time (each pull is a
//! suspension point) and feeds each pull's outcome to [`drain_step`], which
//! makes every decision: append the chunk, finish with the fully concatenated
//! body, or fail the invocation. The accumulated buffer is owned exclusively
//! by the one in-flight invocation and is never read before draining ends.

use vstd::prelude::*;
use crate::event::OutboundEvent;

verus! {

/// The concatenation of a sequence of byte chunks, in production order, with
/// no gaps, duplicates, or reordering.
pub open spec fn concat_chunks(cs: Seq<Seq<u8>>) -> Seq<u8>
    decreases cs.len(),
{
    if cs.len() == 0 {
        Seq::<u8>::empty()
    } else {
        concat_chunks(cs.drop_last()) + cs.last()
    }
}

/// A producer of no chunks concatenates to the empty body.
pub proof fn lemma_concat_chunks_empty()
    ensures
        concat_chunks(Seq::<Seq<u8>>::empty()) == Seq::<u8>::empty(),
{
}

/// A producer of a single chunk concatenates to exactly that chunk.
pub proof fn lemma_concat_chunks_single(c: Seq<u8>)
    ensures
        concat_chunks(seq![c]) == c,
{
    assert(seq![c].drop_last() =~= Seq::<Seq<u8>>::empty());
    assert(concat_chunks(seq![c]) == concat_chunks(seq![c].drop_last()) + seq![c].last());
    assert(Seq::<u8>::empty() + c =~= c);
}

/// Producing one more chunk extends the concatenated body by exactly that
/// chunk, at the end: order is preserved and nothing else changes.
pub proof fn lemma_concat_chunks_push(cs: Seq<Seq<u8>>, c: Seq<u8>)
    ensures
        concat_chunks(cs.push(c)) == concat_chunks(cs) + c,
{
    assert(cs.push(c).drop_last() =~= cs);
    assert(cs.push(c).last() == c);
}

/// The in-progress reassembly of one response: the response's header/metadata
/// block held for passthrough, plus an accumulating byte buffer that always
/// equals the concatenation, in order, of the chunks appended so far.
pub struct ResponseAssembly<M> {
    meta: M,
    buf: Vec<u8>,
    chunks: Ghost<Seq<Seq<u8>>>,
}

impl<M> ResponseAssembly<M> {
    /// The header/metadata block the outbound event will carry.
    pub closed spec fn metadata(&self) -> M {
        self.meta
    }

    /// The chunks appended so far, in production order.
    pub closed spec fn chunks(&self) -> Seq<Seq<u8>> {
        self.chunks@
    }

    /// Well-formedness: the buffer is exactly the in-order concatenation of
    /// the chunks appended so far.
    pub closed spec fn wf(&self) -> bool {
        self.buf@ == concat_chunks(self.chunks@)
    }

    /// Starts a reassembly for a response whose header/metadata block is
    /// `meta`, with no chunks yet.
    pub fn new(meta: M) -> (r: Self)
        ensures
            r.wf(),
            r.metadata() == meta,
            r.chunks() == Seq::<Seq<u8>>::empty(),
    {
        ResponseAssembly { meta, buf: Vec::new(), chunks: Ghost(Seq::empty()) }
    }

    /// Appends one produced chunk at the end of the accumulated body.
    pub fn push_chunk(&mut self, chunk: Vec<u8>)
        requires
            old(self).wf(),
        ensures
            final(self).wf(),
            final(self).metadata() == old(self).metadata(),
            final(self).chunks() == old(self).chunks().push(chunk@),
    {
        proof {
            lemma_concat_chunks_push(self.chunks@, chunk@);
        }
        let ghost c = chunk@;
        let mut chunk = chunk;
        self.buf.append(&mut chunk);
        proof {
            self.chunks@ = self.chunks@.push(c);
        }
    }

    /// Completes the reassembly: the outbound event carries the response's
    /// header/metadata block unchanged and, as its single binary body, the
    /// concatenation of all produced chunks in production order.
    pub fn finish(self) -> (r: OutboundEvent<M>)
        requires
            self.wf(),
        ensures
            r.meta == self.metadata(),
            r.body@ == concat_chunks(self.chunks()),
    {
        let ResponseAssembly { meta, buf, chunks: _ } = self;
        OutboundEvent { meta, body: buf }
    }
}

/// The outcome of one chunk pull on the response body producer, as the host
/// glue observes it at a suspension point.
pub enum PullEvent {
    /// The producer yielded one more chunk.
    Chunk(Vec<u8>),
    /// The pull failed; the message describes the fault.
    Fault(String),
    /// The producer is exhausted.
    End,
}

/// Where one drain step leaves the invocation.
pub enum DrainOutcome<M> {
    /// Draining continues with the chunk appended.
    InProgress(ResponseAssembly<M>),
    /// The producer ended; the complete outbound event is ready.
    Done(OutboundEvent<M>),
    /// A pull failed; the invocation fails and no outbound event is produced.
    Failed(String),
}

/// What [`drain_step`] returns for each pull outcome: a chunk is appended in
/// order; exhaustion yields the outbound event with the metadata passed
/// through and the body equal to the in-order concatenation of all chunks; a
/// fault yields a failure carrying the fault's message, never an event.
pub open spec fn drain_step_result<M>(
    a: ResponseAssembly<M>,
    ev: PullEvent,
    r: DrainOutcome<M>,
) -> bool {
    match ev {
        PullEvent::Chunk(c) => r matches DrainOutcome::InProgress(a2) && a2.wf()
            && a2.metadata() == a.metadata() && a2.chunks() == a.chunks().push(c@),
        PullEvent::End => r matches DrainOutcome::Done(out) && out.meta == a.metadata()
            && out.body@ == concat_chunks(a.chunks()),
        PullEvent::Fault(m) => r matches DrainOutcome::Failed(m2) && m2@ == m@,
    }
}

/// Header/metadata passthrough on the response side: whatever one drain step
/// observes, the metadata block is carried through unchanged — a continuing
/// reassembly keeps it, and a completed outbound event carries exactly the
/// block the handler's response carried.
pub proof fn lemma_drain_step_keeps_metadata<M>(
    a: ResponseAssembly<M>,
    ev: PullEvent,
    r: DrainOutcome<M>,
)
    requires
        drain_step_result(a, ev, r),
    ensures
        r matches DrainOutcome::InProgress(a2) ==> a2.metadata() == a.metadata(),
        r matches DrainOutcome::Done(out) ==> out.meta == a.metadata(),
{
}

/// Advances one drain step: the single decision point between two suspension
/// points of the body drain. Failure of a pull is the one legitimate error
/// exit of an invocation.
pub fn drain_step<M>(a: ResponseAssembly<M>, ev: PullEvent) -> (r: DrainOutcome<M>)
    requires
        a.wf(),
    ensures
        drain_step_result(a, ev, r),
{
    match ev {
        PullEvent::Chunk(c) => {
            let mut acc = a;
            acc.push_chunk(c);
            DrainOutcome::InProgress(acc)
        }
        PullEvent::End => DrainOutcome::Done(a.finish()),
        PullEvent::Fault(m) => DrainOutcome::Failed(m),
    }
}

} // verus!
