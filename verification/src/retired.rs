//! The list of chunks an arena keeps alive until its next reset.
//!
//! Chunks that handed out arena-lifetime references are pinned here when
//! they leave the current slot; a reset releases them, most recent first.

use vstd::prelude::*;

verus! {

/// A LIFO list of pinned chunk identities.
#[derive(Debug)]
pub struct RetiredChunks {
    chunks: Vec<u64>,
}

impl View for RetiredChunks {
    type V = Seq<u64>;

    /// The pinned chunks, oldest first.
    closed spec fn view(&self) -> Seq<u64> {
        self.chunks@
    }
}

impl RetiredChunks {
    /// An empty list.
    pub fn new() -> (r: RetiredChunks)
        ensures
            r@ == Seq::<u64>::empty(),
    {
        RetiredChunks { chunks: Vec::new() }
    }

    /// Number of pinned chunks.
    pub fn len(&self) -> (r: usize)
        ensures
            r == self@.len(),
    {
        self.chunks.len()
    }

    /// Pin `chunk` on top of the list.
    pub fn push(&mut self, chunk: u64)
        ensures
            final(self)@ == old(self)@.push(chunk),
    {
        self.chunks.push(chunk);
    }

    /// Unlink every pinned chunk, returning them in release order: the most
    /// recently pinned first.
    pub fn clear(&mut self) -> (r: Vec<u64>)
        ensures
            final(self)@ == Seq::<u64>::empty(),
            r@ == old(self)@.reverse(),
    {
        let mut out: Vec<u64> = Vec::new();
        let ghost orig = self.chunks@;
        while self.chunks.len() > 0
            invariant
                orig.len() == self.chunks@.len() + out@.len(),
                self.chunks@ == orig.subrange(0, self.chunks@.len() as int),
                out@ == orig.subrange(self.chunks@.len() as int, orig.len() as int).reverse(),
            decreases self.chunks@.len(),
        {
            let ghost before = self.chunks@;
            let c = self.chunks.pop().unwrap();
            proof {
                let k = self.chunks@.len() as int;
                assert(orig.subrange(k, orig.len() as int) =~= seq![c] + orig.subrange(k + 1, orig.len() as int));
                assert(orig.subrange(k, orig.len() as int).reverse() =~= orig.subrange(k + 1, orig.len() as int).reverse().push(c));
            }
            out.push(c);
        }
        proof {
            assert(orig.subrange(0, orig.len() as int) =~= orig);
        }
        out
    }
}

} // verus!
