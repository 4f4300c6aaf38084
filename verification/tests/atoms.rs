//! Runtime checks for the atom space, cursor, writer and growable backing.

use atomspace::allocatable::{write_atom, Allocatable, ChunkAtom, UridAtom};
use atomspace::atom_writer::AtomSpaceWriter;
use atomspace::cursor::SpaceCursor;
use atomspace::error::AtomWriteError;
use atomspace::space::Space;
use atomspace::vec_space::VecSpace;

#[test]
fn cursor_read_requires_bounds_and_alignment() {
    let space = Space::from_vec(vec![1u8, 0, 0, 0, 2, 0, 0, 0]);
    let mut cursor = SpaceCursor::new(&space);
    assert_eq!(cursor.read_u32(), Some(1));
    assert_eq!(cursor.position(), 4);
    // Only four bytes remain: an eight-byte read is out of bounds and must
    // leave the position untouched.
    assert_eq!(cursor.read_u64(), None);
    assert_eq!(cursor.position(), 4);
    assert_eq!(cursor.read_u32(), Some(2));
    assert_eq!(cursor.position(), 8);
    // At the end: nothing left.
    assert_eq!(cursor.read_u32(), None);
    assert_eq!(cursor.position(), 8);
}

#[test]
fn cursor_rejects_misaligned_read() {
    let space = Space::from_vec(vec![0u8; 16]);
    let mut cursor = SpaceCursor::new(&space);
    assert!(cursor.next_bytes(2).is_some());
    // Position 2 is not 4-byte aligned.
    assert_eq!(cursor.read_u32(), None);
    assert_eq!(cursor.position(), 2);
    // Raw bytes need no alignment.
    assert!(cursor.next_bytes(2).is_some());
    assert_eq!(cursor.read_u32(), Some(0));
}

#[test]
fn u32_wire_order_is_little_endian() {
    let mut writer = AtomSpaceWriter::new_fixed(8);
    assert!(writer.write_u32(0x0102_0304).is_ok());
    let space = writer.into_space().unwrap();
    assert_eq!(space.as_bytes(), &[0x04, 0x03, 0x02, 0x01][..]);
}

#[test]
fn round_trip_single_atom() {
    let mut writer = AtomSpaceWriter::new_fixed(64);
    assert!(writer.reserve_header(42).is_ok());
    assert!(writer.write_bytes(&[10, 11, 12]).is_ok());
    assert!(writer.write_bytes(&[13, 14]).is_ok());
    assert!(writer.commit().is_ok());
    let space = writer.into_space().unwrap();
    // Header, five payload bytes, three bytes of padding.
    assert_eq!(space.len(), 16);

    let mut cursor = SpaceCursor::new(&space);
    let header = cursor.read_atom_header().unwrap();
    assert_eq!(header.size, 5);
    assert_eq!(header.type_urid, 42);
    let payload = cursor.next_bytes(5).unwrap();
    assert_eq!(payload, &[10, 11, 12, 13, 14][..]);
    assert!(cursor.skip_padding());
    assert_eq!(cursor.position(), 16);
}

#[test]
fn round_trip_empty_payload() {
    let mut writer = AtomSpaceWriter::new_fixed(8);
    assert!(writer.reserve_header(9).is_ok());
    assert!(writer.commit().is_ok());
    let space = writer.into_space().unwrap();
    assert_eq!(space.len(), 8);
    let mut cursor = SpaceCursor::new(&space);
    let header = cursor.read_atom_header().unwrap();
    assert_eq!(header.size, 0);
    assert_eq!(header.type_urid, 9);
}

#[test]
fn nested_atoms_outer_size_sums_framed_inners() {
    let mut writer = AtomSpaceWriter::new_growable();
    assert!(writer.reserve_header(100).is_ok());
    // First inner atom: 3 payload bytes -> 8 + 3 + 5 = 16 framed bytes.
    assert!(writer.reserve_header(101).is_ok());
    assert!(writer.write_bytes(&[1, 2, 3]).is_ok());
    assert!(writer.commit().is_ok());
    // Second inner atom: 4 payload bytes -> 8 + 4 + 4 = 16 framed bytes.
    assert!(writer.reserve_header(102).is_ok());
    assert!(writer.write_bytes(&[4, 5, 6, 7]).is_ok());
    assert!(writer.commit().is_ok());
    // Close the outer atom.
    assert!(writer.commit().is_ok());
    let space = writer.into_space().unwrap();
    assert_eq!(space.len(), 40);

    let mut cursor = SpaceCursor::new(&space);
    let outer = cursor.read_atom_header().unwrap();
    assert_eq!(outer.size, 32);
    assert_eq!(outer.type_urid, 100);
    let inner1 = cursor.read_atom_header().unwrap();
    assert_eq!(inner1.size, 3);
    assert_eq!(inner1.type_urid, 101);
    assert_eq!(cursor.next_bytes(3).unwrap(), &[1, 2, 3][..]);
    assert!(cursor.skip_padding());
    let inner2 = cursor.read_atom_header().unwrap();
    assert_eq!(inner2.size, 4);
    assert_eq!(inner2.type_urid, 102);
    assert_eq!(cursor.next_bytes(4).unwrap(), &[4, 5, 6, 7][..]);
    assert!(cursor.skip_padding());
    assert_eq!(cursor.position(), 40);
}

#[test]
fn commit_without_reservation_is_an_order_violation() {
    let mut writer = AtomSpaceWriter::new_fixed(16);
    assert_eq!(writer.commit(), Err(AtomWriteError::InvalidReservationOrder));
    // The writer is not poisoned by the ordering error.
    assert!(!writer.out_of_space());
    assert!(writer.reserve_header(1).is_ok());
    assert!(writer.commit().is_ok());
}

#[test]
fn open_reservation_blocks_taking_the_bytes() {
    let mut writer = AtomSpaceWriter::new_fixed(16);
    assert!(writer.reserve_header(1).is_ok());
    assert_eq!(writer.reservation_depth(), 1);
    assert!(writer.into_space().is_err());
}

#[test]
fn exhausted_writer_keeps_committed_prefix() {
    let mut writer = AtomSpaceWriter::new_fixed(16);
    assert!(writer.reserve_header(5).is_ok());
    assert!(writer.write_bytes(&[9; 8]).is_ok());
    assert!(writer.commit().is_ok());
    assert_eq!(writer.written_len(), 16);
    // The fixed backing is full: one more byte must fail ...
    assert_eq!(writer.write_bytes(&[1]), Err(AtomWriteError::OutOfSpace));
    assert!(writer.out_of_space());
    // ... every later write repeats the same error ...
    assert_eq!(writer.write_u32(7), Err(AtomWriteError::OutOfSpace));
    assert_eq!(writer.reserve_header(3), Err(AtomWriteError::OutOfSpace));
    assert_eq!(writer.commit(), Err(AtomWriteError::OutOfSpace));
    // ... and the committed bytes are exactly as they were.
    let space = writer.into_space().unwrap();
    let mut cursor = SpaceCursor::new(&space);
    let header = cursor.read_atom_header().unwrap();
    assert_eq!(header.size, 8);
    assert_eq!(header.type_urid, 5);
    assert_eq!(cursor.next_bytes(8).unwrap(), &[9; 8][..]);
}

#[test]
fn write_to_the_exact_capacity_succeeds() {
    let mut writer = AtomSpaceWriter::new_fixed(4);
    assert!(writer.write_bytes(&[1, 2, 3, 4]).is_ok());
    // Writing nothing still fits; the first byte past the capacity fails.
    assert!(writer.write_bytes(&[]).is_ok());
    assert_eq!(writer.write_bytes(&[5]), Err(AtomWriteError::OutOfSpace));
}

#[test]
fn write_atom_frames_urid_atom() {
    let mut writer = AtomSpaceWriter::new_fixed(32);
    let atom = UridAtom { value: 77 };
    assert!(write_atom(&mut writer, 3, &atom).is_ok());
    let space = writer.into_space().unwrap();
    assert_eq!(space.len(), 16);

    let mut cursor = SpaceCursor::new(&space);
    let header = cursor.read_atom_header().unwrap();
    assert_eq!(header.size, 4);
    assert_eq!(header.type_urid, 3);
    let back = UridAtom::read(&mut cursor, header.size).unwrap();
    assert_eq!(back, UridAtom { value: 77 });
    assert!(cursor.skip_padding());
}

#[test]
fn write_atom_frames_chunk_atom() {
    let mut writer = AtomSpaceWriter::new_growable();
    let atom = ChunkAtom { bytes: vec![1, 2, 3, 4, 5, 6, 7, 8, 9] };
    assert!(write_atom(&mut writer, 8, &atom).is_ok());
    let space = writer.into_space().unwrap();
    assert_eq!(space.len(), 24);

    let mut cursor = SpaceCursor::new(&space);
    let header = cursor.read_atom_header().unwrap();
    assert_eq!(header.size, 9);
    assert_eq!(header.type_urid, 8);
    let back = ChunkAtom::read(&mut cursor, header.size).unwrap();
    assert_eq!(back.bytes, vec![1, 2, 3, 4, 5, 6, 7, 8, 9]);
}

#[test]
fn generic_read_payload_matches_inherent_readers() {
    let space = Space::from_vec(vec![7, 0, 0, 0]);
    let mut cursor = SpaceCursor::new(&space);
    let atom: UridAtom = Allocatable::read_payload(&mut cursor, 4).unwrap();
    assert_eq!(atom.value, 7);
    let mut cursor2 = SpaceCursor::new(&space);
    let chunk: ChunkAtom = Allocatable::read_payload(&mut cursor2, 3).unwrap();
    assert_eq!(chunk.bytes, vec![7, 0, 0]);
}

#[test]
fn write_atom_fails_when_the_frame_does_not_fit() {
    // Capacity 15 cannot hold the 16 framed bytes of a 5-byte payload.
    let mut writer = AtomSpaceWriter::new_fixed(15);
    let atom = ChunkAtom { bytes: vec![1, 2, 3, 4, 5] };
    assert_eq!(write_atom(&mut writer, 1, &atom), Err(AtomWriteError::OutOfSpace));
    assert!(writer.out_of_space());
}

#[test]
fn vec_space_offsets_survive_growth() {
    let mut vs = VecSpace::new();
    let first = vs.allocate(4).unwrap();
    assert_eq!(first, 0);
    assert!(vs.write_at(first, &[1, 2, 3, 4]).is_ok());
    // Grow well past any initial capacity so the buffer relocates.
    let second = vs.allocate(4096).unwrap();
    assert_eq!(second, 4);
    assert!(vs.write_at(second, &[5, 6]).is_ok());
    // The earlier offset still addresses the same logical content.
    assert_eq!(vs.byte_at(0), 1);
    assert_eq!(vs.byte_at(1), 2);
    assert_eq!(vs.byte_at(2), 3);
    assert_eq!(vs.byte_at(3), 4);
    assert_eq!(vs.byte_at(4), 5);
    assert_eq!(vs.byte_at(5), 6);
    assert_eq!(vs.len(), 4100);
}

#[test]
fn vec_space_rejects_writes_outside_the_allocation() {
    let mut vs = VecSpace::new();
    let offset = vs.allocate(4).unwrap();
    assert_eq!(
        vs.write_at(offset, &[1, 2, 3, 4, 5]),
        Err(AtomWriteError::OutOfBounds)
    );
    // Nothing changed.
    assert_eq!(vs.byte_at(0), 0);
    assert_eq!(vs.byte_at(3), 0);
}

#[test]
fn vec_space_hands_bytes_to_a_cursor() {
    let mut vs = VecSpace::new();
    let offset = vs.allocate(8).unwrap();
    assert!(vs.write_at(offset, &[3, 0, 0, 0, 1, 0, 0, 0]).is_ok());
    let space = vs.into_space();
    let mut cursor = SpaceCursor::new(&space);
    assert_eq!(cursor.read_u32(), Some(3));
    assert_eq!(cursor.read_u32(), Some(1));
}
