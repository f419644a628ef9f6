//! The fixed-size byte chunk handed from the input reader to the
//! decoder: up to 32 bytes per blocking read.

use vstd::prelude::*;

verus! {

/// One chunk of raw input: a fixed buffer and the number of bytes that
/// are valid in it. A length of zero marks end of stream.
#[derive(Debug, Clone, Copy)]
pub struct Bytes {
    pub len: usize,
    pub buf: [u8; 32],
}

impl Bytes {
    /// The valid length never exceeds the fixed buffer.
    pub open spec fn wf(self) -> bool {
        self.len <= 32
    }

    /// The valid bytes of the chunk.
    pub open spec fn spec_bytes(self) -> Seq<u8> {
        self.buf@.take(self.len as int)
    }

    /// The valid prefix of the chunk.
    pub fn as_slice(&self) -> (r: &[u8])
        requires
            self.wf(),
        ensures
            r@ == self.spec_bytes(),
    {
        let whole: &[u8] = self.buf.as_slice();
        let r: &[u8] = &whole[0..self.len];
        proof {
            assert(r@ =~= self.spec_bytes());
        }
        r
    }

    /// How many bytes are valid.
    pub fn len(&self) -> (r: usize)
        ensures
            r == self.len,
    {
        self.len
    }

    /// Whether the chunk is empty (end of stream).
    pub fn is_empty(&self) -> (r: bool)
        ensures
            r == (self.len == 0),
    {
        self.len == 0
    }
}

impl Default for Bytes {
    fn default() -> (r: Bytes)
        ensures
            r.wf(),
            r.len == 0,
    {
        Bytes { len: 0, buf: [0; 32] }
    }
}

} // verus!
