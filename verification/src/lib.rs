//! Reading and writing self-describing, type-tagged binary records ("atoms")
//! inside a bounds-checked byte region, plus resolution of the untyped port
//! connections a host hands over, one at a time and in no fixed order, into a
//! typed collection that is validated once per processing call.
//!
//! The core pieces are [`space::Space`] (a byte region supporting
//! bounds-checked reads), [`cursor::SpaceCursor`] (a monotonically advancing
//! read position enforcing bounds and alignment), and
//! [`atom_writer::AtomSpaceWriter`] (a write cursor with a reservation
//! protocol: an atom's header is written first with a placeholder size, the
//! payload follows, and the size field is patched when the payload is
//! complete). [`vec_space::VecSpace`] is a growable backing store whose
//! offsets stay valid across growth.

pub mod error;
pub mod format;
pub mod space;
pub mod cursor;
pub mod atom_writer;
pub mod vec_space;
pub mod laws;
pub mod allocatable;
pub mod port_collection;
