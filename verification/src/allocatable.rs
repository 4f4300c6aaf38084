//! The generic contract through which concrete atom types plug into the
//! cursor and writer machinery.

use vstd::prelude::*;
use vstd::bytes::*;
use vstd::slice::slice_to_vec;
use crate::atom_writer::AtomSpaceWriter;
use crate::cursor::SpaceCursor;
use crate::error::AtomWriteError;
use crate::format::{framed_atom, framed_len, lemma_pad_len_shift, pad_len, zero_bytes};
use crate::laws::lemma_commit_frames_atom;

verus! {

/// A value that can be framed into a space and read back out of one.
///
/// Every concrete atom type states which payload bytes a value of it stands
/// for, writes those bytes through a writer, and reconstructs a typed value
/// from a cursor positioned at the start of a payload of declared length.
/// The generic machinery — [`write_atom`] and the reservation protocol —
/// needs nothing else about the type's internal layout.
pub trait Allocatable: Sized {
    /// The payload bytes a value of this type is framed as.
    spec fn payload(&self) -> Seq<u8>;

    /// Appends this value's payload bytes at the writer's position.
    ///
    /// Succeeds exactly when the writer is not exhausted and the payload
    /// fits under the capacity; on failure nothing already written changes,
    /// and the writer becomes exhausted.
    fn write_payload(&self, writer: &mut AtomSpaceWriter) -> (r: Result<(), AtomWriteError>)
        requires
            old(writer).wf(),
        ensures
            final(writer).wf(),
            final(writer).is_bounded() == old(writer).is_bounded(),
            final(writer).cap() == old(writer).cap(),
            final(writer).reservations() == old(writer).reservations(),
            r is Ok <==> (!old(writer).is_exhausted() && old(writer).fits(
                self.payload().len() as int,
            )),
            match r {
                Ok(()) => final(writer).written() == old(writer).written() + self.payload()
                    && !final(writer).is_exhausted(),
                Err(e) => e == AtomWriteError::OutOfSpace && final(writer).written() == old(writer).written() && final(writer).is_exhausted(),
            },
    ;

    /// Reads a payload of `size` bytes at the cursor into a typed value.
    ///
    /// A value comes back only if the cursor advanced over exactly those
    /// `size` bytes and they are the value's own payload image; on `None`
    /// the position is unchanged.
    fn read_payload(cursor: &mut SpaceCursor<'_>, size: u32) -> (r: Option<Self>)
        requires
            old(cursor).wf(),
        ensures
            final(cursor).wf(),
            final(cursor).bytes() == old(cursor).bytes(),
            match r {
                Some(v) => v.payload() == old(cursor).bytes().subrange(
                    old(cursor).pos(),
                    old(cursor).pos() + size,
                ) && final(cursor).pos() == old(cursor).pos() + size,
                None => final(cursor).pos() == old(cursor).pos(),
            },
    ;
}

/// An atom holding one interned 32-bit identifier as its payload.
#[derive(Clone, Copy, Debug, PartialEq, Eq, Structural)]
pub struct UridAtom {
    /// The interned identifier the atom carries.
    pub value: u32,
}

impl UridAtom {
    /// Reads a `UridAtom` payload: exactly four aligned, in-bounds bytes.
    ///
    /// Returns a value exactly when the declared size is four, the bytes
    /// lie inside the space, and the position is 4-byte aligned; otherwise
    /// `None` with the position unchanged.
    pub fn read(cursor: &mut SpaceCursor<'_>, size: u32) -> (r: Option<UridAtom>)
        requires
            old(cursor).wf(),
        ensures
            final(cursor).wf(),
            final(cursor).bytes() == old(cursor).bytes(),
            r is Some <==> (size == 4 && old(cursor).pos() + 4 <= old(cursor).bytes().len() && old(cursor).pos() % 4 == 0),
            r is Some ==> r == Some(
                UridAtom {
                    value: spec_u32_from_le_bytes(
                        old(cursor).bytes().subrange(old(cursor).pos(), old(cursor).pos() + 4),
                    ),
                },
            ) && final(cursor).pos() == old(cursor).pos() + 4,
            r is None ==> final(cursor).pos() == old(cursor).pos(),
    {
        if size != 4 {
            return None;
        }
        match cursor.read_u32() {
            Some(value) => Some(UridAtom { value }),
            None => None,
        }
    }
}

impl Allocatable for UridAtom {
    open spec fn payload(&self) -> Seq<u8> {
        spec_u32_to_le_bytes(self.value)
    }

    fn write_payload(&self, writer: &mut AtomSpaceWriter) -> (r: Result<(), AtomWriteError>) {
        proof {
            lemma_auto_spec_u32_to_from_le_bytes();
        }
        writer.write_u32(self.value)
    }

    fn read_payload(cursor: &mut SpaceCursor<'_>, size: u32) -> (r: Option<UridAtom>) {
        proof {
            lemma_auto_spec_u32_to_from_le_bytes();
        }
        UridAtom::read(cursor, size)
    }
}

/// An atom holding an opaque run of bytes as its payload.
#[derive(Clone, Debug, PartialEq, Eq)]
pub struct ChunkAtom {
    /// The payload bytes, uninterpreted.
    pub bytes: Vec<u8>,
}

impl ChunkAtom {
    /// Reads a `ChunkAtom` payload: the next `size` raw bytes.
    ///
    /// Returns a value exactly when the bytes lie inside the space;
    /// otherwise `None` with the position unchanged.
    pub fn read(cursor: &mut SpaceCursor<'_>, size: u32) -> (r: Option<ChunkAtom>)
        requires
            old(cursor).wf(),
        ensures
            final(cursor).wf(),
            final(cursor).bytes() == old(cursor).bytes(),
            r is Some <==> old(cursor).pos() + size <= old(cursor).bytes().len(),
            match r {
                Some(a) => a.bytes@ == old(cursor).bytes().subrange(
                    old(cursor).pos(),
                    old(cursor).pos() + size,
                ) && final(cursor).pos() == old(cursor).pos() + size,
                None => final(cursor).pos() == old(cursor).pos(),
            },
    {
        match cursor.next_bytes(size as usize) {
            Some(slice) => Some(ChunkAtom { bytes: slice_to_vec(slice) }),
            None => None,
        }
    }
}

impl Allocatable for ChunkAtom {
    open spec fn payload(&self) -> Seq<u8> {
        self.bytes@
    }

    fn write_payload(&self, writer: &mut AtomSpaceWriter) -> (r: Result<(), AtomWriteError>) {
        writer.write_bytes(self.bytes.as_slice())
    }

    fn read_payload(cursor: &mut SpaceCursor<'_>, size: u32) -> (r: Option<ChunkAtom>) {
        ChunkAtom::read(cursor, size)
    }
}

/// Writes one complete atom: reserves a header at the next 8-byte boundary,
/// writes the value's payload, and commits, leaving the atom framed and
/// closed.
///
/// Succeeds exactly when the writer is not exhausted, the payload length
/// fits the 32-bit size field, and the alignment padding plus the full
/// framed atom fit under the capacity; the framed wire image then follows
/// what was already written, and the open reservations are as before — an
/// atom written inside an open reservation becomes part of that payload.
/// On failure the writer is exhausted and nothing already written has
/// changed, though a placeholder header and part of the payload may follow
/// it; the failed atom is never committed.
pub fn write_atom<A: Allocatable>(
    writer: &mut AtomSpaceWriter,
    type_urid: u32,
    atom: &A,
) -> (r: Result<(), AtomWriteError>)
    requires
        old(writer).wf(),
    ensures
        final(writer).wf(),
        final(writer).is_bounded() == old(writer).is_bounded(),
        final(writer).cap() == old(writer).cap(),
        r is Ok <==> (!old(writer).is_exhausted() && atom.payload().len() <= u32::MAX && old(writer).fits(
            pad_len(old(writer).written().len() as int) + framed_len(atom.payload().len() as int),
        )),
        match r {
            Ok(()) => {
                &&& final(writer).written() == old(writer).written() + zero_bytes(
                    pad_len(old(writer).written().len() as int),
                ) + framed_atom(type_urid, atom.payload())
                &&& final(writer).reservations() == old(writer).reservations()
                &&& !final(writer).is_exhausted()
            },
            Err(e) => {
                &&& e == AtomWriteError::OutOfSpace
                &&& final(writer).is_exhausted()
                &&& ({
                    let pad = pad_len(old(writer).written().len() as int);
                    let h = old(writer).written().len() + pad;
                    let after_header = old(writer).written() + zero_bytes(pad)
                        + spec_u32_to_le_bytes(0) + spec_u32_to_le_bytes(type_urid);
                    ||| (final(writer).written() == old(writer).written() && final(writer).reservations() == old(writer).reservations())
                    ||| ((final(writer).written() == after_header || final(writer).written()
                        == after_header + atom.payload()) && final(writer).reservations().len()
                        == old(writer).reservations().len() + 1 && final(writer).reservations().drop_last() == old(writer).reservations() && final(writer).reservations().last().header_offset == h && final(writer).reservations().last().payload_start == h + 8)
                })
            },
        },
{
    proof {
        lemma_auto_spec_u32_to_from_le_bytes();
    }
    let ghost pre = old(writer).written();
    let ghost pad = pad_len(pre.len() as int);
    match writer.reserve_header(type_urid) {
        Ok(()) => (),
        Err(e) => {
            return Err(e);
        },
    }
    match atom.write_payload(writer) {
        Ok(()) => (),
        Err(e) => {
            return Err(e);
        },
    }
    let ghost before_commit = writer.written();
    let r = writer.commit();
    proof {
        let prefix0 = pre + zero_bytes(pad);
        assert(prefix0.len() % 8 == 0);
        assert(before_commit =~= prefix0 + spec_u32_to_le_bytes(0) + spec_u32_to_le_bytes(
            type_urid,
        ) + atom.payload());
        lemma_pad_len_shift(prefix0.len() as int + 8, atom.payload().len() as int);
        assert(pad_len(before_commit.len() as int) == pad_len(atom.payload().len() as int));
        if r is Ok {
            lemma_commit_frames_atom(prefix0, type_urid, atom.payload());
            assert(writer.written() =~= pre + zero_bytes(pad) + framed_atom(
                type_urid,
                atom.payload(),
            ));
            assert(writer.reservations() =~= old(writer).reservations());
        }
    }
    r
}

} // verus!
