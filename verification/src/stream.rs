//! The chunked response body: a pull-based reader that hands out the encoded
//! image bytes in fixed-size chunks until it is exhausted.

use vstd::prelude::*;

verus! {

/// How many bytes a single chunk holds at most.
pub const CHUNK_SIZE: usize = 4096;

/// A finite, non-restartable sequence of byte chunks over an in-memory
/// buffer. Its abstract value is the bytes not yet handed out.
pub struct ByteStream {
    data: Vec<u8>,
    pos: usize,
}

impl View for ByteStream {
    type V = Seq<u8>;

    closed spec fn view(&self) -> Seq<u8> {
        self.data@.skip(self.pos as int)
    }
}

impl ByteStream {
    #[verifier::type_invariant]
    spec fn inv(&self) -> bool {
        self.pos <= self.data@.len()
    }

    /// Wraps a buffer so that it can be read out chunk by chunk.
    pub fn new(data: Vec<u8>) -> (s: Self)
        ensures
            s@ == data@,
    {
        let s = ByteStream { data, pos: 0 };
        proof {
            assert(s@ =~= s.data@);
        }
        s
    }

    /// How many bytes are still to be handed out.
    pub fn remaining(&self) -> (n: usize)
        ensures
            n == self@.len(),
    {
        proof {
            use_type_invariant(self);
        }
        self.data.len() - self.pos
    }

    /// Hands out the next chunk: up to [`CHUNK_SIZE`] of the remaining
    /// bytes, or `None` once the stream is exhausted. A returned chunk is
    /// never empty, and the remaining bytes shrink by exactly its length.
    pub fn next_chunk(&mut self) -> (c: Option<Vec<u8>>)
        ensures
            match c {
                None => old(self)@.len() == 0 && final(self)@ == old(self)@,
                Some(chunk) => {
                    &&& 0 < chunk@.len() <= CHUNK_SIZE
                    &&& chunk@.len() == if old(self)@.len() < CHUNK_SIZE {
                        old(self)@.len() as int
                    } else {
                        CHUNK_SIZE as int
                    }
                    &&& chunk@ == old(self)@.take(chunk@.len() as int)
                    &&& final(self)@ == old(self)@.skip(chunk@.len() as int)
                },
            },
    {
        proof {
            use_type_invariant(&*self);
        }
        let remaining = self.data.len() - self.pos;
        if remaining == 0 {
            return None;
        }
        let k = if remaining < CHUNK_SIZE {
            remaining
        } else {
            CHUNK_SIZE
        };
        let mut chunk: Vec<u8> = Vec::new();
        let mut i: usize = 0;
        while i < k
            invariant
                self.pos + k <= self.data@.len(),
                self.pos + k <= usize::MAX,
                i <= k,
                chunk@ =~= self.data@.subrange(self.pos as int, self.pos + i),
            decreases k - i,
        {
            chunk.push(self.data[self.pos + i]);
            i += 1;
        }
        proof {
            assert(chunk@ =~= old(self)@.take(k as int));
        }
        self.pos = self.pos + k;
        proof {
            assert(self@ =~= old(self)@.skip(k as int));
        }
        Some(chunk)
    }
}

/// The chunk decomposition of a byte sequence: successive pieces of
/// [`CHUNK_SIZE`] bytes, the last one shorter when less is left.
pub open spec fn chunk_seq(s: Seq<u8>) -> Seq<Seq<u8>>
    decreases s.len(),
{
    if s.len() == 0 {
        Seq::empty()
    } else if s.len() < CHUNK_SIZE {
        seq![s]
    } else {
        seq![s.take(CHUNK_SIZE as int)] + chunk_seq(s.skip(CHUNK_SIZE as int))
    }
}

/// The concatenation of a sequence of chunks, in order.
pub open spec fn concat_chunks(cs: Seq<Seq<u8>>) -> Seq<u8>
    decreases cs.len(),
{
    if cs.len() == 0 {
        Seq::empty()
    } else {
        cs[0] + concat_chunks(cs.drop_first())
    }
}

/// Chunked delivery loses nothing: concatenating the chunk decomposition of
/// a byte sequence gives back exactly that sequence, so a consumer that
/// reads the stream to exhaustion has read every byte of the encoded image,
/// in order.
pub proof fn lemma_chunks_rebuild(s: Seq<u8>)
    ensures
        concat_chunks(chunk_seq(s)) == s,
    decreases s.len(),
{
    if s.len() == 0 {
        assert(concat_chunks(chunk_seq(s)) =~= s);
    } else if s.len() < CHUNK_SIZE {
        let cs = chunk_seq(s);
        assert(cs == seq![s]);
        assert(cs.drop_first() =~= Seq::<Seq<u8>>::empty());
        assert(concat_chunks(cs.drop_first()) == Seq::<u8>::empty());
        assert(concat_chunks(cs) == cs[0] + concat_chunks(cs.drop_first()));
        assert(cs[0] + Seq::<u8>::empty() =~= s);
    } else {
        lemma_chunks_rebuild(s.skip(CHUNK_SIZE as int));
        let cs = chunk_seq(s);
        assert(cs.drop_first() =~= chunk_seq(s.skip(CHUNK_SIZE as int)));
        assert(cs[0] == s.take(CHUNK_SIZE as int));
        assert(concat_chunks(cs) == cs[0] + concat_chunks(cs.drop_first()));
        assert(s.take(CHUNK_SIZE as int) + s.skip(CHUNK_SIZE as int) =~= s);
    }
}

} // verus!
