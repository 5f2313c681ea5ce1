//! The sample buffer that carries one block of signal between nodes.
//!
//! A buffer has one owner, the port that made it, and its block is
//! allocated once and never again. Everyone else is handed a reference,
//! which is cheap to copy and cannot free the block. No buffer carries
//! anything from one block of audio to the next: what a node remembers, it
//! keeps itself.

use vstd::prelude::*;

verus! {

/// The number of frames that one block holds at most.
pub const MAX_BLOCK_SIZE: usize = 128;

/// One block of silence: `MAX_BLOCK_SIZE` samples of positive zero.
pub open spec fn silence() -> Seq<u32> {
    Seq::new(MAX_BLOCK_SIZE as nat, |i: int| 0u32)
}

/// A processing buffer of exactly `MAX_BLOCK_SIZE` samples.
///
/// A buffer either owns its block or is the null buffer of an unconnected
/// port. The null buffer reads as silence and drops what is written to it,
/// so no node has to ask which of the two it was handed.
pub struct ProcBuf {
    block: Option<Box<[u32; MAX_BLOCK_SIZE]>>,
}

impl View for ProcBuf {
    type V = Seq<u32>;

    /// The samples that the buffer reads as.
    closed spec fn view(&self) -> Seq<u32> {
        match self.block {
            Some(b) => b@,
            None => silence(),
        }
    }
}

impl ProcBuf {
    /// Whether this is the null buffer.
    pub closed spec fn spec_is_null(&self) -> bool {
        self.block is None
    }

    /// A buffer always reads as a whole block.
    pub proof fn lemma_len(&self)
        ensures
            self@.len() == MAX_BLOCK_SIZE,
    {
    }

    /// A buffer that owns a fresh block of silence.
    pub fn new() -> (r: ProcBuf)
        ensures
            !r.is_null(),
            r@ == silence(),
    {
        let mut r = ProcBuf { block: Some(Box::new([0u32; MAX_BLOCK_SIZE])) };
        r.fill(0);
        assert(r@ =~= silence());
        r
    }

    /// The null buffer.
    pub fn null() -> (r: ProcBuf)
        ensures
            r.is_null(),
            r@ == silence(),
    {
        ProcBuf { block: None }
    }

    #[verifier::when_used_as_spec(spec_is_null)]
    pub fn is_null(&self) -> (r: bool)
        ensures
            r == self.spec_is_null(),
    {
        self.block.is_none()
    }

    /// Stores `v` at `idx`: a buffer that owns its block then reads as `v`
    /// there and as before everywhere else. The null buffer stays silent.
    pub fn write(&mut self, idx: usize, v: u32)
        requires
            idx < MAX_BLOCK_SIZE,
        ensures
            final(self).is_null() == old(self).is_null(),
            final(self)@ == (if old(self).is_null() {
                old(self)@
            } else {
                old(self)@.update(idx as int, v)
            }),
            !old(self).is_null() ==> final(self)@[idx as int] == v,
            forall|j: int|
                0 <= j < MAX_BLOCK_SIZE && j != idx ==> final(self)@[j] == old(self)@[j],
    {
        match &mut self.block {
            Some(b) => {
                b[idx] = v;
            },
            None => {},
        }
    }

    /// The sample at `idx`.
    pub fn read(&self, idx: usize) -> (v: u32)
        requires
            idx < MAX_BLOCK_SIZE,
        ensures
            v == self@[idx as int],
    {
        match &self.block {
            Some(b) => b[idx],
            None => 0,
        }
    }

    /// Copies `slice` over the start of the block.
    pub fn write_from(&mut self, slice: &[u32])
        requires
            slice@.len() <= MAX_BLOCK_SIZE,
        ensures
            final(self).is_null() == old(self).is_null(),
            final(self)@ == (if old(self).is_null() {
                old(self)@
            } else {
                slice@ + old(self)@.skip(slice@.len() as int)
            }),
    {
        match &mut self.block {
            Some(b) => {
                let ghost before = b@;
                let n = slice.len();
                let mut i: usize = 0;
                while i < n
                    invariant
                        i <= n,
                        n == slice@.len(),
                        n <= MAX_BLOCK_SIZE,
                        before.len() == MAX_BLOCK_SIZE,
                        b@ == slice@.take(i as int) + before.skip(i as int),
                    decreases n - i,
                {
                    b[i] = slice[i];
                    i += 1;
                    assert(b@ =~= slice@.take(i as int) + before.skip(i as int));
                }
                assert(slice@.take(n as int) =~= slice@);
            },
            None => {},
        }
    }

    /// Sets every sample of the block to `v`: a buffer that owns its block
    /// then reads as `v` everywhere. The null buffer stays silent.
    pub fn fill(&mut self, v: u32)
        ensures
            final(self).is_null() == old(self).is_null(),
            final(self)@ == (if old(self).is_null() {
                old(self)@
            } else {
                Seq::new(MAX_BLOCK_SIZE as nat, |i: int| v)
            }),
            !old(self).is_null() ==> forall|i: int|
                0 <= i < MAX_BLOCK_SIZE ==> final(self)@[i] == v,
    {
        match &mut self.block {
            Some(b) => {
                let mut i: usize = 0;
                while i < MAX_BLOCK_SIZE
                    invariant
                        i <= MAX_BLOCK_SIZE,
                        forall|j: int| 0 <= j < i ==> b@[j] == v,
                    decreases MAX_BLOCK_SIZE - i,
                {
                    b[i] = v;
                    i += 1;
                }
                assert(b@ =~= Seq::new(MAX_BLOCK_SIZE as nat, |i: int| v));
            },
            None => {},
        }
    }

    /// Gives up the block. What is left is the null buffer, on which a
    /// second call changes nothing.
    pub fn free(&mut self)
        ensures
            final(self).is_null(),
            final(self)@ == silence(),
    {
        self.block = None;
    }

    /// Copies the first `len` samples into `slice`, for a monitor that
    /// looks at the signal without owning the buffer.
    pub fn copy_to(&self, len: usize, slice: &mut [u32])
        requires
            len <= MAX_BLOCK_SIZE,
            old(slice)@.len() == len,
        ensures
            final(slice)@ == self@.take(len as int),
    {
        let mut i: usize = 0;
        while i < len
            invariant
                i <= len,
                len <= MAX_BLOCK_SIZE,
                slice@.len() == len,
                self@.len() == MAX_BLOCK_SIZE,
                forall|j: int| 0 <= j < i ==> slice@[j] == self@[j],
            decreases len - i,
        {
            slice[i] = self.read(i);
            i += 1;
        }
        assert(slice@ =~= self@.take(len as int));
    }
}

} // verus!
