//! A monotonically advancing read position over a space.

use vstd::prelude::*;
use vstd::bytes::*;
use vstd::slice::slice_subrange;
use crate::format::{pad_len, AtomHeader};
use crate::space::Space;

verus! {

/// A read cursor over a [`Space`].
///
/// The position only ever moves forward, and every read checks bounds and
/// alignment first: a read that would leave the space, or that starts at an
/// offset not aligned for the value being read, returns `None` and leaves the
/// position exactly where it was. The cursor never reads out of bounds and
/// never panics.
pub struct SpaceCursor<'a> {
    space: &'a Space,
    position: usize,
}

impl<'a> SpaceCursor<'a> {
    /// The bytes of the space this cursor reads from.
    pub closed spec fn bytes(&self) -> Seq<u8> {
        self.space@
    }

    /// The current read position.
    pub closed spec fn pos(&self) -> int {
        self.position as int
    }

    /// The position never leaves the space: `0 <= pos <= length`.
    pub open spec fn wf(&self) -> bool {
        0 <= self.pos() <= self.bytes().len()
    }

    /// A cursor at the start of `space`.
    pub fn new(space: &'a Space) -> (c: SpaceCursor<'a>)
        ensures
            c.wf(),
            c.bytes() == space@,
            c.pos() == 0,
    {
        SpaceCursor { space, position: 0 }
    }

    /// The current read position in bytes from the start of the space.
    pub fn position(&self) -> (p: usize)
        ensures
            p == self.pos(),
    {
        self.position
    }

    /// How many bytes remain between the position and the end of the space.
    pub fn remaining(&self) -> (n: usize)
        requires
            self.wf(),
        ensures
            n == self.bytes().len() - self.pos(),
    {
        self.space.len() - self.position
    }

    /// Reads a `u32` at the current position and advances past it.
    ///
    /// Returns a value exactly when the four bytes lie inside the space and
    /// the position is 4-byte aligned; otherwise returns `None` with the
    /// position unchanged.
    pub fn read_u32(&mut self) -> (r: Option<u32>)
        requires
            old(self).wf(),
        ensures
            final(self).wf(),
            final(self).bytes() == old(self).bytes(),
            r is Some <==> (old(self).pos() + 4 <= old(self).bytes().len() && old(self).pos() % 4
                == 0),
            r is Some ==> r == Some(
                spec_u32_from_le_bytes(
                    old(self).bytes().subrange(old(self).pos(), old(self).pos() + 4),
                ),
            ) && final(self).pos() == old(self).pos() + 4,
            r is None ==> final(self).pos() == old(self).pos(),
    {
        let len = self.space.len();
        if self.position % 4 == 0 && len >= 4 && self.position <= len - 4 {
            let s = slice_subrange(self.space.as_bytes(), self.position, self.position + 4);
            let x = u32_from_le_bytes(s);
            self.position = self.position + 4;
            Some(x)
        } else {
            None
        }
    }

    /// Reads a `u64` at the current position and advances past it.
    ///
    /// Returns a value exactly when the eight bytes lie inside the space and
    /// the position is 8-byte aligned; otherwise returns `None` with the
    /// position unchanged.
    pub fn read_u64(&mut self) -> (r: Option<u64>)
        requires
            old(self).wf(),
        ensures
            final(self).wf(),
            final(self).bytes() == old(self).bytes(),
            r is Some <==> (old(self).pos() + 8 <= old(self).bytes().len() && old(self).pos() % 8
                == 0),
            r is Some ==> r == Some(
                spec_u64_from_le_bytes(
                    old(self).bytes().subrange(old(self).pos(), old(self).pos() + 8),
                ),
            ) && final(self).pos() == old(self).pos() + 8,
            r is None ==> final(self).pos() == old(self).pos(),
    {
        let len = self.space.len();
        if self.position % 8 == 0 && len >= 8 && self.position <= len - 8 {
            let s = slice_subrange(self.space.as_bytes(), self.position, self.position + 8);
            let x = u64_from_le_bytes(s);
            self.position = self.position + 8;
            Some(x)
        } else {
            None
        }
    }

    /// Reads the next `n` bytes without interpreting them and advances by
    /// exactly `n`, used to take an unknown atom body or skip over one.
    ///
    /// Returns the bytes exactly when they lie inside the space; otherwise
    /// returns `None` with the position unchanged. No alignment is required
    /// for raw bytes.
    pub fn next_bytes(&mut self, n: usize) -> (r: Option<&'a [u8]>)
        requires
            old(self).wf(),
        ensures
            final(self).wf(),
            final(self).bytes() == old(self).bytes(),
            r is Some <==> old(self).pos() + n <= old(self).bytes().len(),
            r is Some ==> (match r {
                Some(b) => b@ == old(self).bytes().subrange(old(self).pos(), old(self).pos() + n)
                    && final(self).pos() == old(self).pos() + n,
                None => false,
            }),
            r is None ==> final(self).pos() == old(self).pos(),
    {
        let len = self.space.len();
        if n <= len && self.position <= len - n {
            let s = slice_subrange(self.space.as_bytes(), self.position, self.position + n);
            self.position = self.position + n;
            Some(s)
        } else {
            None
        }
    }

    /// Reads an atom header — the payload size and the type tag — and
    /// advances past it.
    ///
    /// Returns a header exactly when the eight header bytes lie inside the
    /// space and the position sits on an atom boundary (8-byte aligned);
    /// otherwise returns `None` with the position unchanged.
    pub fn read_atom_header(&mut self) -> (r: Option<AtomHeader>)
        requires
            old(self).wf(),
        ensures
            final(self).wf(),
            final(self).bytes() == old(self).bytes(),
            r is Some <==> (old(self).pos() + 8 <= old(self).bytes().len() && old(self).pos() % 8
                == 0),
            r is Some ==> r == Some(
                AtomHeader {
                    size: spec_u32_from_le_bytes(
                        old(self).bytes().subrange(old(self).pos(), old(self).pos() + 4),
                    ),
                    type_urid: spec_u32_from_le_bytes(
                        old(self).bytes().subrange(old(self).pos() + 4, old(self).pos() + 8),
                    ),
                },
            ) && final(self).pos() == old(self).pos() + 8,
            r is None ==> final(self).pos() == old(self).pos(),
    {
        let len = self.space.len();
        if self.position % 8 == 0 && len >= 8 && self.position <= len - 8 {
            let s = slice_subrange(self.space.as_bytes(), self.position, self.position + 4);
            let size = u32_from_le_bytes(s);
            let t = slice_subrange(
                self.space.as_bytes(),
                self.position + 4,
                self.position + 8,
            );
            let type_urid = u32_from_le_bytes(t);
            self.position = self.position + 8;
            Some(AtomHeader { size, type_urid })
        } else {
            None
        }
    }

    /// Advances over the zero padding that closes an atom, up to the next
    /// 8-byte boundary.
    ///
    /// Succeeds exactly when the padding bytes lie inside the space; on
    /// failure the position is unchanged.
    pub fn skip_padding(&mut self) -> (ok: bool)
        requires
            old(self).wf(),
        ensures
            final(self).wf(),
            final(self).bytes() == old(self).bytes(),
            ok <==> old(self).pos() + pad_len(old(self).pos()) <= old(self).bytes().len(),
            ok ==> final(self).pos() == old(self).pos() + pad_len(old(self).pos())
                && final(self).pos() % 8 == 0,
            !ok ==> final(self).pos() == old(self).pos(),
    {
        let pad = (8 - self.position % 8) % 8;
        let len = self.space.len();
        if pad <= len && self.position <= len - pad {
            self.position = self.position + pad;
            true
        } else {
            false
        }
    }
}

} // verus!
