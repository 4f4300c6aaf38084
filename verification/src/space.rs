//! A capability over a region of bytes that supports bounds-checked reads.

use vstd::prelude::*;

verus! {

/// A contiguous byte region of known length.
///
/// A space is an immutable view: reads never change it, and every sub-region
/// handed out satisfies `offset + size <= length`. The first byte of a space
/// is taken to sit on an 8-byte boundary — the alignment the atom format
/// demands of every buffer it lives in — so all alignment checks made by a
/// cursor are checks on offsets from that base.
pub struct Space {
    data: Vec<u8>,
}

impl View for Space {
    type V = Seq<u8>;

    closed spec fn view(&self) -> Seq<u8> {
        self.data@
    }
}

impl Space {
    /// Wraps an owned byte buffer as a space.
    pub fn from_vec(data: Vec<u8>) -> (s: Space)
        ensures
            s@ == data@,
    {
        Space { data }
    }

    /// Total length of the region in bytes.
    pub fn len(&self) -> (n: usize)
        ensures
            n == self@.len(),
    {
        self.data.len()
    }

    /// Read-only view of the whole region.
    pub fn as_bytes(&self) -> (r: &[u8])
        ensures
            r@ == self@,
    {
        self.data.as_slice()
    }

    /// The byte at offset `i`.
    pub fn byte_at(&self, i: usize) -> (b: u8)
        requires
            i < self@.len(),
        ensures
            b == self@[i as int],
    {
        self.data[i]
    }

    /// Gives the backing buffer back to the caller.
    pub fn into_vec(self) -> (v: Vec<u8>)
        ensures
            v@ == self@,
    {
        self.data
    }
}

} // verus!
