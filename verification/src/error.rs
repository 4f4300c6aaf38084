//! Error values returned by the write-side operations.

use vstd::prelude::*;

verus! {

/// An error from a write into a space.
///
/// Read-side failures (an out-of-bounds or misaligned read) are reported as
/// `None` by the cursor instead, and a missing required port connection is
/// reported as `None` by the resolution step: both are ordinary conditions on
/// the real-time path, not errors carried as values.
#[derive(Clone, Copy, Debug, PartialEq, Eq, Structural)]
pub enum AtomWriteError {
    /// A write would run past the end of a fixed-capacity space.
    OutOfSpace,
    /// A write lies outside the already allocated part of a growable space.
    OutOfBounds,
    /// A commit was attempted while no reservation was open, or the writer
    /// still holds open reservations when its bytes are taken out.
    InvalidReservationOrder,
}

} // verus!
