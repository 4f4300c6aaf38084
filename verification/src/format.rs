//! The wire image of an atom.
//!
//! An atom is a header of two fixed-width unsigned integers — the payload
//! length in bytes and the interned type identifier — followed by the payload
//! and by zero padding up to the next 8-byte boundary. Header fields are
//! stored little-endian, which is the native byte order of the hosts this
//! process-local format serves; no conversion is ever applied.

use vstd::prelude::*;
use vstd::bytes::*;

verus! {

/// An atom header as read back from a space: the payload byte length
/// (excluding the header itself) and the interned type identifier.
#[derive(Clone, Copy, Debug, PartialEq, Eq, Structural)]
pub struct AtomHeader {
    /// Payload byte length, excluding the header and the trailing padding.
    pub size: u32,
    /// Interned identifier of the atom's type.
    pub type_urid: u32,
}

/// Number of zero bytes that follow `len` bytes of content to reach the next
/// 8-byte boundary.
pub open spec fn pad_len(len: int) -> int {
    (8 - len % 8) % 8
}

/// A run of `n` zero bytes, as written for alignment padding.
pub open spec fn zero_bytes(n: int) -> Seq<u8> {
    Seq::new(n as nat, |i: int| 0u8)
}

/// The full wire image of one atom: the header holding the payload length
/// and the type tag, the payload itself, and zero padding up to the next
/// 8-byte boundary.
pub open spec fn framed_atom(type_urid: u32, payload: Seq<u8>) -> Seq<u8>
    recommends
        payload.len() <= u32::MAX,
{
    spec_u32_to_le_bytes(payload.len() as u32) + spec_u32_to_le_bytes(type_urid) + payload
        + zero_bytes(pad_len(payload.len() as int))
}

/// Total framed length of an atom with an `n`-byte payload: the 8-byte
/// header, the payload, and the padding that closes it.
pub open spec fn framed_len(n: int) -> int {
    8 + n + pad_len(n)
}

/// The framed length of an atom is always a whole number of 8-byte units,
/// so a sibling written right after it starts aligned again.
pub proof fn lemma_framed_len_aligned(n: int)
    requires
        n >= 0,
    ensures
        framed_len(n) % 8 == 0,
        framed_len(n) >= 8,
{
}

/// Content standing after a whole number of 8-byte units needs the same
/// padding as it would at the start of a space.
pub proof fn lemma_pad_len_shift(a: int, b: int)
    requires
        a % 8 == 0,
        a >= 0,
        b >= 0,
    ensures
        pad_len(a + b) == pad_len(b),
{
    assert((a + b) % 8 == b % 8) by (nonlinear_arith)
        requires
            a % 8 == 0,
            a >= 0,
            b >= 0,
    ;
}

/// Padding needed after `len` written bytes to reach the next 8-byte
/// boundary.
pub fn pad_len_exec(len: usize) -> (r: usize)
    ensures
        r == pad_len(len as int),
        r < 8,
{
    (8 - len % 8) % 8
}

} // verus!
