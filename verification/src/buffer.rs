//! Drain-once poll buffer: output chunks queued for pull-based clients.
//!
//! Chunks are appended in the order they were read from the shell and a
//! single drain hands back their concatenation, emptying the buffer.

use vstd::prelude::*;

verus! {

/// The concatenation of a sequence of chunks, in order.
pub open spec fn concat_chunks(chunks: Seq<Seq<char>>) -> Seq<char>
    decreases chunks.len(),
{
    if chunks.len() == 0 {
        Seq::empty()
    } else {
        chunks.first() + concat_chunks(chunks.drop_first())
    }
}

/// Appending one chunk extends the concatenation at the end.
pub proof fn lemma_concat_chunks_push(chunks: Seq<Seq<char>>, c: Seq<char>)
    ensures
        concat_chunks(chunks.push(c)) =~= concat_chunks(chunks) + c,
    decreases chunks.len(),
{
    if chunks.len() == 0 {
        assert(chunks.push(c).first() == c);
        assert(chunks.push(c).drop_first() =~= Seq::<Seq<char>>::empty());
        assert(concat_chunks(chunks.push(c)) == c + concat_chunks(Seq::<Seq<char>>::empty()));
        assert(c + Seq::<char>::empty() =~= c);
        assert(concat_chunks(chunks) + c =~= c);
    } else {
        assert(chunks.push(c).first() == chunks.first());
        assert(chunks.push(c).drop_first() =~= chunks.drop_first().push(c));
        lemma_concat_chunks_push(chunks.drop_first(), c);
        assert(concat_chunks(chunks.push(c)) == chunks.first() + concat_chunks(
            chunks.drop_first().push(c),
        ));
    }
}

/// Draining an empty buffer yields the empty string: the law behind a second
/// drain with no writes in between returning nothing.
pub proof fn lemma_concat_chunks_empty()
    ensures
        concat_chunks(Seq::<Seq<char>>::empty()) =~= Seq::<char>::empty(),
{
}

/// A bounded-by-drain queue of shell output chunks.
pub struct PollBuffer {
    chunks: Vec<String>,
}

impl View for PollBuffer {
    type V = Seq<Seq<char>>;

    closed spec fn view(&self) -> Seq<Seq<char>> {
        Seq::new(self.chunks@.len(), |i: int| self.chunks@[i]@)
    }
}

impl PollBuffer {
    /// A fresh, empty buffer.
    pub fn new() -> (b: PollBuffer)
        ensures
            b@ =~= Seq::<Seq<char>>::empty(),
    {
        PollBuffer { chunks: Vec::new() }
    }

    /// Queue one chunk behind everything already buffered.
    pub fn append(&mut self, chunk: String)
        ensures
            final(self)@ =~= old(self)@.push(chunk@),
    {
        self.chunks.push(chunk);
    }

    /// How many chunks are waiting.
    pub fn len(&self) -> (n: usize)
        ensures
            n == self@.len(),
    {
        self.chunks.len()
    }

    /// Hand back every buffered chunk as one string, in append order, and
    /// leave the buffer empty.
    pub fn drain(&mut self) -> (out: String)
        ensures
            out@ == concat_chunks(old(self)@),
            final(self)@ =~= Seq::<Seq<char>>::empty(),
    {
        let mut out = String::new();
        let mut i: usize = 0;
        while i < self.chunks.len()
            invariant
                i <= self.chunks@.len(),
                self == old(self),
                out@ == concat_chunks(self@.take(i as int)),
            decreases self.chunks@.len() - i,
        {
            out.append(self.chunks[i].as_str());
            proof {
                assert(self@.take(i + 1 as int) =~= self@.take(i as int).push(self@[i as int]));
                lemma_concat_chunks_push(self@.take(i as int), self@[i as int]);
            }
            i = i + 1;
        }
        proof {
            assert(self@.take(self@.len() as int) =~= self@);
        }
        self.chunks.clear();
        out
    }
}

} // verus!
