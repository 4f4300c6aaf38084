//! The write cursor and its reservation protocol.

use vstd::prelude::*;
use vstd::bytes::*;
use vstd::pervasive::VecAdditionalExecFns;
use vstd::slice::slice_to_vec;
use crate::error::AtomWriteError;
use crate::format::{pad_len, pad_len_exec, zero_bytes};
use crate::space::Space;

verus! {

/// One open reservation: where the placeholder header was written and where
/// the payload that belongs to it begins.
///
/// Reservations nest: an atom being written can itself contain atoms being
/// written, so open reservations form a stack, and the innermost one is
/// always the one a commit closes — last opened, first closed, matching the
/// structural nesting of atoms within atoms.
#[derive(Clone, Copy, Debug, PartialEq, Eq, Structural)]
pub struct Reservation {
    /// Offset of the 8-byte placeholder header inside the written bytes.
    pub header_offset: usize,
    /// Offset of the first payload byte: `header_offset + 8`.
    pub payload_start: usize,
}

/// What one open reservation demands of the written bytes: the payload
/// begins right after the 8-byte header, the header sits on an 8-byte
/// boundary, and the payload start lies inside the written bytes.
pub open spec fn reservation_entry_wf(r: Reservation, len: int) -> bool {
    &&& r.payload_start == r.header_offset + 8
    &&& r.header_offset % 8 == 0
    &&& r.payload_start <= len
}

/// Well-formedness of a whole reservation stack over `len` written bytes:
/// every entry is well formed, and the entries nest — each one opened later
/// lies inside the payload of every one opened earlier.
pub open spec fn reservations_wf(stack: Seq<Reservation>, len: int) -> bool {
    &&& (forall|i: int|
        0 <= i < stack.len() ==> reservation_entry_wf(#[trigger] stack[i], len))
    &&& (forall|i: int, j: int|
        #![trigger stack[i], stack[j]]
        0 <= i < j < stack.len() ==> stack[i].payload_start <= stack[j].header_offset)
}

/// Writing more bytes never disturbs the open reservations.
proof fn lemma_reservations_wf_grow(stack: Seq<Reservation>, len0: int, len1: int)
    requires
        reservations_wf(stack, len0),
        len0 <= len1,
    ensures
        reservations_wf(stack, len1),
{
}

/// Opening a new reservation whose header starts at or after the write
/// position keeps the stack well formed.
proof fn lemma_reservations_wf_push(stack: Seq<Reservation>, len0: int, r: Reservation, len1: int)
    requires
        reservations_wf(stack, len0),
        reservation_entry_wf(r, len1),
        len0 <= r.header_offset,
        len0 <= len1,
    ensures
        reservations_wf(stack.push(r), len1),
{
    assert forall|i: int, j: int|
        #![trigger stack.push(r)[i], stack.push(r)[j]]
        0 <= i < j < stack.push(r).len() implies stack.push(r)[i].payload_start <= stack.push(
        r,
    )[j].header_offset by {
        if j < stack.len() {
            assert(stack.push(r)[i] == stack[i]);
            assert(stack.push(r)[j] == stack[j]);
        } else {
            assert(stack.push(r)[i] == stack[i]);
            assert(stack[i].payload_start <= len0);
        }
    }
}

/// Closing the innermost reservation keeps the rest of the stack well
/// formed.
proof fn lemma_reservations_wf_drop_last(stack: Seq<Reservation>, len0: int, len1: int)
    requires
        reservations_wf(stack, len0),
        stack.len() > 0,
        len0 <= len1,
    ensures
        reservations_wf(stack.drop_last(), len1),
{
    assert forall|i: int|
        0 <= i < stack.drop_last().len() implies reservation_entry_wf(
        #[trigger] stack.drop_last()[i],
        len1,
    ) by {
        assert(stack.drop_last()[i] == stack[i]);
    }
    assert forall|i: int, j: int|
        #![trigger stack.drop_last()[i], stack.drop_last()[j]]
        0 <= i < j < stack.drop_last().len() implies stack.drop_last()[i].payload_start
        <= stack.drop_last()[j].header_offset by {
        assert(stack.drop_last()[i] == stack[i]);
        assert(stack.drop_last()[j] == stack[j]);
    }
}

/// The byte image left by a commit: the placeholder size field at
/// `header_offset` is replaced by the now-known payload length, and zero
/// padding up to the next 8-byte boundary closes the atom.
pub open spec fn committed_written(pre: Seq<u8>, header_offset: int, size: u32) -> Seq<u8> {
    pre.subrange(0, header_offset) + spec_u32_to_le_bytes(size) + pre.subrange(
        header_offset + 4,
        pre.len() as int,
    ) + zero_bytes(pad_len(pre.len() as int))
}

/// A write cursor that supports writing an atom whose final size is not
/// known in advance.
///
/// `reserve_header` writes a placeholder header (size zero) and records a
/// reservation; payload bytes and nested atoms follow; `commit` closes the
/// innermost open reservation by patching the header's size field in place
/// and padding to the next 8-byte boundary, so that a sibling atom starts
/// aligned.
///
/// A bounded writer never grows: a write that would pass its capacity fails
/// with [`AtomWriteError::OutOfSpace`], leaves every byte already written
/// untouched, and puts the writer into an exhausted state in which all
/// further writes and commits return the same error — the atom that was
/// being written when space ran out is invalid and can no longer be
/// committed. An unbounded writer extends its owned buffer instead; every
/// value it ever handed out is an offset, never an address, so growth can
/// relocate the backing store without invalidating anything.
pub struct AtomSpaceWriter {
    data: Vec<u8>,
    bounded: bool,
    capacity: usize,
    stack: Vec<Reservation>,
    exhausted: bool,
}

impl AtomSpaceWriter {
    /// The bytes written so far; the write position is their length.
    pub closed spec fn written(&self) -> Seq<u8> {
        self.data@
    }

    /// The stack of open reservations, outermost first.
    pub closed spec fn reservations(&self) -> Seq<Reservation> {
        self.stack@
    }

    /// Whether the writer refuses to grow past its capacity.
    pub closed spec fn is_bounded(&self) -> bool {
        self.bounded
    }

    /// The capacity of a bounded writer in bytes.
    pub closed spec fn cap(&self) -> int {
        self.capacity as int
    }

    /// Whether a write has already failed for lack of space.
    pub closed spec fn is_exhausted(&self) -> bool {
        self.exhausted
    }

    /// Whether `n` more bytes fit under the capacity.
    pub open spec fn fits(&self, n: int) -> bool {
        self.is_bounded() ==> self.written().len() + n <= self.cap()
    }

    /// The writer's internal invariant: the written bytes respect the
    /// capacity, every open reservation's payload begins right after its
    /// 8-byte header on an 8-byte boundary inside the written bytes, and the
    /// reservations nest — each inner one lies inside the payload of the one
    /// below it.
    pub open spec fn wf(&self) -> bool {
        &&& (self.is_bounded() ==> self.written().len() <= self.cap())
        &&& reservations_wf(self.reservations(), self.written().len() as int)
    }

    /// A writer over a fixed backing of `capacity` bytes; writes past the
    /// capacity fail rather than grow.
    pub fn new_fixed(capacity: usize) -> (w: AtomSpaceWriter)
        ensures
            w.wf(),
            w.written() == Seq::<u8>::empty(),
            w.reservations() == Seq::<Reservation>::empty(),
            !w.is_exhausted(),
            w.is_bounded(),
            w.cap() == capacity,
    {
        AtomSpaceWriter {
            data: Vec::new(),
            bounded: true,
            capacity,
            stack: Vec::new(),
            exhausted: false,
        }
    }

    /// A writer over an owned, growable backing; writes never run out of
    /// space.
    pub fn new_growable() -> (w: AtomSpaceWriter)
        ensures
            w.wf(),
            w.written() == Seq::<u8>::empty(),
            w.reservations() == Seq::<Reservation>::empty(),
            !w.is_exhausted(),
            !w.is_bounded(),
    {
        AtomSpaceWriter {
            data: Vec::new(),
            bounded: false,
            capacity: 0,
            stack: Vec::new(),
            exhausted: false,
        }
    }

    /// Number of bytes written so far — the current write position.
    pub fn written_len(&self) -> (n: usize)
        ensures
            n == self.written().len(),
    {
        self.data.len()
    }

    /// Number of reservations still open.
    pub fn reservation_depth(&self) -> (n: usize)
        ensures
            n == self.reservations().len(),
    {
        self.stack.len()
    }

    /// Whether a write has already failed for lack of space; once true,
    /// every further write or commit returns `OutOfSpace` unchanged.
    pub fn out_of_space(&self) -> (b: bool)
        ensures
            b == self.is_exhausted(),
    {
        self.exhausted
    }

    /// Appends raw payload bytes at the write position.
    ///
    /// Succeeds exactly when the writer is not exhausted and the bytes fit
    /// under the capacity; on failure nothing already written changes, and
    /// the writer becomes exhausted.
    pub fn write_bytes(&mut self, bytes: &[u8]) -> (r: Result<(), AtomWriteError>)
        requires
            old(self).wf(),
        ensures
            final(self).wf(),
            final(self).is_bounded() == old(self).is_bounded(),
            final(self).cap() == old(self).cap(),
            final(self).reservations() == old(self).reservations(),
            r is Ok <==> (!old(self).is_exhausted() && old(self).fits(bytes@.len() as int)),
            match r {
                Ok(()) => final(self).written() == old(self).written() + bytes@ && !final(self).is_exhausted(),
                Err(e) => e == AtomWriteError::OutOfSpace && final(self).written() == old(self).written() && final(self).is_exhausted(),
            },
    {
        if self.exhausted {
            return Err(AtomWriteError::OutOfSpace);
        }
        if self.bounded && bytes.len() > self.capacity - self.data.len() {
            self.exhausted = true;
            return Err(AtomWriteError::OutOfSpace);
        }
        let mut tail = slice_to_vec(bytes);
        self.data.append(&mut tail);
        proof {
            lemma_reservations_wf_grow(
                old(self).reservations(),
                old(self).written().len() as int,
                self.written().len() as int,
            );
        }
        Ok(())
    }

    /// Appends one `u32` in the format's byte order at the write position.
    ///
    /// Succeeds exactly when the writer is not exhausted and four more bytes
    /// fit; on failure nothing already written changes, and the writer
    /// becomes exhausted.
    pub fn write_u32(&mut self, value: u32) -> (r: Result<(), AtomWriteError>)
        requires
            old(self).wf(),
        ensures
            final(self).wf(),
            final(self).is_bounded() == old(self).is_bounded(),
            final(self).cap() == old(self).cap(),
            final(self).reservations() == old(self).reservations(),
            r is Ok <==> (!old(self).is_exhausted() && old(self).fits(4)),
            match r {
                Ok(()) => final(self).written() == old(self).written() + spec_u32_to_le_bytes(
                    value,
                ) && !final(self).is_exhausted(),
                Err(e) => e == AtomWriteError::OutOfSpace && final(self).written() == old(self).written() && final(self).is_exhausted(),
            },
    {
        proof {
            lemma_auto_spec_u32_to_from_le_bytes();
        }
        let bytes = u32_to_le_bytes(value);
        self.write_bytes(bytes.as_slice())
    }

    /// Starts a new atom at the next 8-byte boundary: writes any padding
    /// needed to reach it, then a placeholder header — size zero and the
    /// given type tag — and opens a reservation for it.
    ///
    /// Succeeds exactly when the writer is not exhausted and the padding
    /// plus the 8 header bytes fit; on failure nothing already written
    /// changes, and the writer becomes exhausted.
    pub fn reserve_header(&mut self, type_urid: u32) -> (r: Result<(), AtomWriteError>)
        requires
            old(self).wf(),
        ensures
            final(self).wf(),
            final(self).is_bounded() == old(self).is_bounded(),
            final(self).cap() == old(self).cap(),
            r is Ok <==> (!old(self).is_exhausted() && old(self).fits(
                pad_len(old(self).written().len() as int) + 8,
            )),
            match r {
                Ok(()) => {
                    let pad = pad_len(old(self).written().len() as int);
                    let h = old(self).written().len() + pad;
                    &&& final(self).written() == old(self).written() + zero_bytes(pad)
                        + spec_u32_to_le_bytes(0) + spec_u32_to_le_bytes(type_urid)
                    &&& final(self).reservations().len() == old(self).reservations().len() + 1
                    &&& final(self).reservations().drop_last() == old(self).reservations()
                    &&& final(self).reservations().last().header_offset == h
                    &&& final(self).reservations().last().payload_start == h + 8
                    &&& !final(self).is_exhausted()
                },
                Err(e) => {
                    &&& e == AtomWriteError::OutOfSpace
                    &&& final(self).written() == old(self).written()
                    &&& final(self).reservations() == old(self).reservations()
                    &&& final(self).is_exhausted()
                },
            },
    {
        if self.exhausted {
            return Err(AtomWriteError::OutOfSpace);
        }
        let len = self.data.len();
        let pad = pad_len_exec(len);
        if self.bounded {
            let room = self.capacity - len;
            if pad > room || 8 > room - pad {
                self.exhausted = true;
                return Err(AtomWriteError::OutOfSpace);
            }
        }
        let mut padding = make_zero_bytes(pad);
        self.data.append(&mut padding);
        let header_offset = self.data.len();
        let mut size_field = u32_to_le_bytes(0);
        self.data.append(&mut size_field);
        let mut type_field = u32_to_le_bytes(type_urid);
        self.data.append(&mut type_field);
        let payload_start = self.data.len();
        self.stack.push(Reservation { header_offset, payload_start });
        proof {
            lemma_auto_spec_u32_to_from_le_bytes();
            assert(self.written() =~= old(self).written() + zero_bytes(pad as int)
                + spec_u32_to_le_bytes(0) + spec_u32_to_le_bytes(type_urid));
            assert(header_offset % 8 == 0);
            lemma_reservations_wf_push(
                old(self).reservations(),
                old(self).written().len() as int,
                Reservation { header_offset, payload_start },
                self.written().len() as int,
            );
            assert(self.reservations() =~= old(self).reservations().push(
                Reservation { header_offset, payload_start },
            ));
            assert(self.reservations().drop_last() =~= old(self).reservations());
        }
        Ok(())
    }

    /// Closes the innermost open reservation: patches its header's size
    /// field with the number of payload bytes written since the reservation
    /// opened, then pads to the next 8-byte boundary so that a sibling atom
    /// starts aligned.
    ///
    /// Succeeds exactly when the writer is not exhausted, a reservation is
    /// open, the payload length fits the 32-bit size field, and the closing
    /// padding fits under the capacity. With no open reservation the error
    /// is `InvalidReservationOrder` and the writer is otherwise untouched;
    /// an exhausted writer refuses the commit — the atom that was being
    /// written when space ran out stays uncommitted.
    pub fn commit(&mut self) -> (r: Result<(), AtomWriteError>)
        requires
            old(self).wf(),
        ensures
            final(self).wf(),
            final(self).is_bounded() == old(self).is_bounded(),
            final(self).cap() == old(self).cap(),
            r is Ok <==> (!old(self).is_exhausted() && old(self).reservations().len() > 0 && old(self).written().len() - old(self).reservations().last().payload_start <= u32::MAX && old(self).fits(pad_len(old(self).written().len() as int))),
            match r {
                Ok(()) => {
                    let res = old(self).reservations().last();
                    let size = old(self).written().len() - res.payload_start;
                    &&& final(self).written() == committed_written(
                        old(self).written(),
                        res.header_offset as int,
                        size as u32,
                    )
                    &&& final(self).reservations() == old(self).reservations().drop_last()
                    &&& !final(self).is_exhausted()
                },
                Err(e) => {
                    &&& final(self).written() == old(self).written()
                    &&& final(self).reservations() == old(self).reservations()
                    &&& if old(self).is_exhausted() {
                        e == AtomWriteError::OutOfSpace && final(self).is_exhausted()
                    } else if old(self).reservations().len() == 0 {
                        e == AtomWriteError::InvalidReservationOrder && !final(self).is_exhausted()
                    } else {
                        e == AtomWriteError::OutOfSpace && final(self).is_exhausted()
                    }
                },
            },
    {
        if self.exhausted {
            return Err(AtomWriteError::OutOfSpace);
        }
        if self.stack.len() == 0 {
            return Err(AtomWriteError::InvalidReservationOrder);
        }
        let res = self.stack[self.stack.len() - 1];
        let len = self.data.len();
        let size = len - res.payload_start;
        if size > u32::MAX as usize {
            self.exhausted = true;
            return Err(AtomWriteError::OutOfSpace);
        }
        let pad = pad_len_exec(len);
        if self.bounded && pad > self.capacity - len {
            self.exhausted = true;
            return Err(AtomWriteError::OutOfSpace);
        }
        self.stack.pop();
        let size_bytes = u32_to_le_bytes(size as u32);
        self.data.set(res.header_offset, size_bytes[0]);
        self.data.set(res.header_offset + 1, size_bytes[1]);
        self.data.set(res.header_offset + 2, size_bytes[2]);
        self.data.set(res.header_offset + 3, size_bytes[3]);
        let mut padding = make_zero_bytes(pad);
        self.data.append(&mut padding);
        proof {
            assert(self.written() =~= committed_written(
                old(self).written(),
                res.header_offset as int,
                size as u32,
            ));
            lemma_reservations_wf_drop_last(
                old(self).reservations(),
                old(self).written().len() as int,
                self.written().len() as int,
            );
            assert(self.reservations() =~= old(self).reservations().drop_last());
        }
        Ok(())
    }

    /// Hands the written bytes out as a read-only space.
    ///
    /// Succeeds exactly when no reservation is still open — every atom that
    /// was started has been committed. The bytes of an exhausted writer are
    /// still handed out: everything committed before space ran out is
    /// intact.
    pub fn into_space(self) -> (r: Result<Space, AtomWriteError>)
        requires
            self.wf(),
        ensures
            r is Ok <==> self.reservations().len() == 0,
            match r {
                Ok(s) => s@ == self.written(),
                Err(e) => e == AtomWriteError::InvalidReservationOrder,
            },
    {
        if self.stack.len() > 0 {
            Err(AtomWriteError::InvalidReservationOrder)
        } else {
            Ok(Space::from_vec(self.data))
        }
    }
}

/// A vector of `n` zero bytes, used for alignment padding.
fn make_zero_bytes(n: usize) -> (v: Vec<u8>)
    ensures
        v@ == zero_bytes(n as int),
{
    let mut v: Vec<u8> = Vec::new();
    let mut i: usize = 0;
    while i < n
        invariant
            i <= n,
            v@ =~= zero_bytes(i as int),
        decreases n - i,
    {
        v.push(0u8);
        proof {
            assert(v@ =~= zero_bytes(i as int + 1));
        }
        i = i + 1;
    }
    v
}

} // verus!
