//! Capture of a request body that arrives in chunks, and its replay.
use vstd::prelude::*;
use crate::message::append_bytes;

verus! {

/// The bytes of `chunks`, in order.
pub open spec fn concat_chunks(chunks: Seq<Seq<u8>>) -> Seq<u8>
    decreases chunks.len(),
{
    if chunks.len() == 0 {
        Seq::empty()
    } else {
        concat_chunks(chunks.drop_last()) + chunks.last()
    }
}

/// A body being drained from its stream, one chunk at a time.
pub struct BodyCapture {
    buffer: Vec<u8>,
}

impl BodyCapture {
    /// The bytes captured so far.
    pub closed spec fn view(&self) -> Seq<u8> {
        self.buffer@
    }

    /// A capture that holds no bytes yet.
    pub fn new() -> (r: BodyCapture)
        ensures
            r.view() == Seq::<u8>::empty(),
    {
        BodyCapture { buffer: Vec::new() }
    }

    /// Adds the next chunk of the stream after those already captured.
    pub fn push_chunk(&mut self, chunk: &[u8])
        ensures
            final(self).view() == old(self).view() + chunk@,
    {
        append_bytes(&mut self.buffer, chunk);
    }

    /// The bytes captured so far.
    pub fn bytes(&self) -> (r: &[u8])
        ensures
            r@ == self.view(),
    {
        self.buffer.as_slice()
    }

    /// Ends the capture: the captured body, and an independent copy of it
    /// for the next stage to read from the start.
    pub fn finish(self) -> (r: (Vec<u8>, Vec<u8>))
        ensures
            r.0@ == self.view(),
            r.1@ == self.view(),
    {
        let mut replay: Vec<u8> = Vec::new();
        append_bytes(&mut replay, self.buffer.as_slice());
        (self.buffer, replay)
    }
}

/// Captures a body that arrived as `chunks`: the captured bytes, and the
/// replay copy handed on to the next stage.
pub fn capture(chunks: &Vec<Vec<u8>>) -> (r: (Vec<u8>, Vec<u8>))
    ensures
        r.0@ == concat_chunks(chunks.deep_view()),
        r.1@ == r.0@,
{
    let mut body = BodyCapture::new();
    let mut i: usize = 0;
    while i < chunks.len()
        invariant
            i <= chunks@.len(),
            body.view() == concat_chunks(chunks.deep_view().subrange(0, i as int)),
        decreases chunks@.len() - i,
    {
        let ghost before = chunks.deep_view().subrange(0, i as int);
        body.push_chunk(chunks[i].as_slice());
        i = i + 1;
        let ghost after = chunks.deep_view().subrange(0, i as int);
        assert(after.drop_last() =~= before);
    }
    assert(chunks.deep_view().subrange(0, i as int) =~= chunks.deep_view());
    body.finish()
}

/// The captured body does not depend on where the stream was cut into
/// chunks: the bytes of two runs of chunks are those of the first followed
/// by those of the second.
pub proof fn lemma_concat_chunks_split(a: Seq<Seq<u8>>, b: Seq<Seq<u8>>)
    ensures
        concat_chunks(a + b) == concat_chunks(a) + concat_chunks(b),
    decreases b.len(),
{
    if b.len() == 0 {
        assert(a + b =~= a);
        assert(concat_chunks(a) + concat_chunks(b) =~= concat_chunks(a));
    } else {
        lemma_concat_chunks_split(a, b.drop_last());
        assert((a + b).drop_last() =~= a + b.drop_last());
        assert((a + b).last() == b.last());
        assert(concat_chunks(a + b) =~= concat_chunks(a) + concat_chunks(b));
    }
}

/// Cutting one chunk in two anywhere leaves the captured body unchanged.
pub proof fn lemma_chunk_boundary_irrelevant(
    before: Seq<Seq<u8>>,
    x: Seq<u8>,
    y: Seq<u8>,
    after: Seq<Seq<u8>>,
)
    ensures
        concat_chunks(before + seq![x + y] + after) == concat_chunks(before + seq![x, y] + after),
{
    lemma_concat_chunks_split(before + seq![x + y], after);
    lemma_concat_chunks_split(before + seq![x, y], after);
    lemma_concat_chunks_split(before, seq![x + y]);
    lemma_concat_chunks_split(before, seq![x, y]);
    assert(seq![x + y].drop_last() =~= Seq::<Seq<u8>>::empty());
    assert(seq![x, y].drop_last() =~= seq![x]);
    assert(seq![x].drop_last() =~= Seq::<Seq<u8>>::empty());
    assert(concat_chunks(Seq::<Seq<u8>>::empty()) =~= Seq::<u8>::empty());
    assert(seq![x + y].last() == x + y);
    assert(seq![x, y].last() == y);
    assert(seq![x].last() == x);
    assert(concat_chunks(seq![x + y]) =~= x + y);
    assert(concat_chunks(seq![x]) =~= x);
    assert(concat_chunks(seq![x, y]) =~= x + y);
    assert(concat_chunks(before + seq![x + y]) =~= concat_chunks(before + seq![x, y]));
}

} // verus!
