//! An owned, growable backing store for a space.

use vstd::prelude::*;
use vstd::pervasive::VecAdditionalExecFns;
use crate::error::AtomWriteError;
use crate::format::zero_bytes;
use crate::space::Space;

verus! {

/// A growable byte region owned by the caller, used when an atom tree is
/// assembled to be handed over later rather than written straight into a
/// buffer the host supplied.
///
/// Growth may relocate the underlying buffer, so nothing handed out by a
/// `VecSpace` is ever an address: `allocate` returns the offset at which the
/// new region begins, and every offset returned earlier keeps addressing the
/// same logical content after any number of later allocations.
pub struct VecSpace {
    data: Vec<u8>,
}

impl View for VecSpace {
    type V = Seq<u8>;

    closed spec fn view(&self) -> Seq<u8> {
        self.data@
    }
}

impl VecSpace {
    /// An empty growable space.
    pub fn new() -> (s: VecSpace)
        ensures
            s@ == Seq::<u8>::empty(),
    {
        VecSpace { data: Vec::new() }
    }

    /// Current length of the allocated region in bytes.
    pub fn len(&self) -> (n: usize)
        ensures
            n == self@.len(),
    {
        self.data.len()
    }

    /// The byte at offset `i` of the allocated region.
    pub fn byte_at(&self, i: usize) -> (b: u8)
        requires
            i < self@.len(),
        ensures
            b == self@[i as int],
    {
        self.data[i]
    }

    /// Grows the region by exactly `n` zeroed bytes and returns the offset
    /// at which the new bytes begin.
    ///
    /// Everything allocated before keeps its offset and its content: the
    /// old region is a prefix of the new one, byte for byte, even when the
    /// growth relocated the buffer. Fails only when the grown length would
    /// not fit the machine's address width.
    pub fn allocate(&mut self, n: usize) -> (r: Result<usize, AtomWriteError>)
        ensures
            match r {
                Ok(offset) => {
                    &&& offset == old(self)@.len()
                    &&& final(self)@ == old(self)@ + zero_bytes(n as int)
                    &&& final(self)@.subrange(0, old(self)@.len() as int) == old(self)@
                },
                Err(e) => {
                    &&& e == AtomWriteError::OutOfSpace
                    &&& final(self)@ == old(self)@
                    &&& old(self)@.len() + n > usize::MAX
                },
            },
            r is Ok <==> old(self)@.len() + n <= usize::MAX,
    {
        if n > usize::MAX - self.data.len() {
            return Err(AtomWriteError::OutOfSpace);
        }
        let offset = self.data.len();
        let mut i: usize = 0;
        while i < n
            invariant
                i <= n,
                self.data@ =~= old(self).data@ + zero_bytes(i as int),
                n <= usize::MAX - old(self).data@.len(),
            decreases n - i,
        {
            self.data.push(0u8);
            proof {
                assert(self.data@ =~= old(self).data@ + zero_bytes(i as int + 1));
            }
            i = i + 1;
        }
        proof {
            assert(self@.subrange(0, old(self)@.len() as int) =~= old(self)@);
        }
        Ok(offset)
    }

    /// Overwrites `bytes.len()` bytes of the already allocated region,
    /// starting at `offset`.
    ///
    /// Succeeds exactly when the written range lies inside the allocated
    /// region; writing past it is refused with `OutOfBounds` and changes
    /// nothing — a growable space only ever grows through `allocate`.
    pub fn write_at(&mut self, offset: usize, bytes: &[u8]) -> (r: Result<(), AtomWriteError>)
        ensures
            match r {
                Ok(()) => final(self)@ == old(self)@.subrange(0, offset as int) + bytes@ + old(
                    self,
                )@.subrange(offset + bytes@.len(), old(self)@.len() as int),
                Err(e) => e == AtomWriteError::OutOfBounds && final(self)@ == old(self)@,
            },
            r is Ok <==> offset + bytes@.len() <= old(self)@.len(),
    {
        let len = self.data.len();
        if bytes.len() > len || offset > len - bytes.len() {
            return Err(AtomWriteError::OutOfBounds);
        }
        let mut i: usize = 0;
        while i < bytes.len()
            invariant
                i <= bytes@.len(),
                offset + bytes@.len() <= usize::MAX,
                offset + bytes@.len() <= self.data@.len(),
                self.data@.len() == old(self).data@.len(),
                forall|k: int|
                    0 <= k < self.data@.len() ==> #[trigger] self.data@[k] == (if offset <= k
                        < offset + i {
                        bytes@[k - offset]
                    } else {
                        old(self).data@[k]
                    }),
            decreases bytes@.len() - i,
        {
            self.data.set(offset + i, bytes[i]);
            i = i + 1;
        }
        proof {
            assert(self@ =~= old(self)@.subrange(0, offset as int) + bytes@ + old(self)@.subrange(
                offset + bytes@.len(),
                old(self)@.len() as int,
            ));
        }
        Ok(())
    }

    /// Hands the allocated bytes out as a read-only space.
    pub fn into_space(self) -> (s: Space)
        ensures
            s@ == self@,
    {
        Space::from_vec(self.data)
    }
}

} // verus!
