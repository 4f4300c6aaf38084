//! The laws the atom machinery obeys, stated over the byte-level model that
//! the writer's and the cursor's contracts use.

use vstd::prelude::*;
use vstd::bytes::*;
use vstd::assert_seqs_equal;
use crate::atom_writer::committed_written;
use crate::format::{framed_atom, framed_len, lemma_framed_len_aligned, pad_len};
use crate::port_collection::PortCollection;

verus! {

/// Writing a placeholder header, then the payload, then committing leaves
/// exactly one framed atom after the bytes that were already there.
///
/// This is the write half of the round trip: the byte image that
/// `reserve_header` (at an aligned position), any number of payload writes
/// totalling `payload`, and `commit` leave behind — the placeholder size
/// patched to the payload length, the atom closed with padding — is the
/// framed wire image of that payload.
pub proof fn lemma_commit_frames_atom(prefix: Seq<u8>, type_urid: u32, payload: Seq<u8>)
    requires
        prefix.len() % 8 == 0,
        payload.len() <= u32::MAX,
    ensures
        committed_written(
            prefix + spec_u32_to_le_bytes(0) + spec_u32_to_le_bytes(type_urid) + payload,
            prefix.len() as int,
            payload.len() as u32,
        ) == prefix + framed_atom(type_urid, payload),
{
    lemma_auto_spec_u32_to_from_le_bytes();
    let pre = prefix + spec_u32_to_le_bytes(0) + spec_u32_to_le_bytes(type_urid) + payload;
    let h = prefix.len() as int;
    assert(pre.len() == h + 8 + payload.len());
    assert(pad_len(pre.len() as int) == pad_len(payload.len() as int));
    assert_seqs_equal!(pre.subrange(0, h) == prefix);
    assert_seqs_equal!(
        pre.subrange(h + 4, pre.len() as int)
            == spec_u32_to_le_bytes(type_urid) + payload
    );
    assert_seqs_equal!(
        committed_written(pre, h, payload.len() as u32)
            == prefix + framed_atom(type_urid, payload)
    );
}

/// Reading a framed atom back gives exactly what was written.
///
/// Wherever one framed atom stands on an 8-byte boundary inside a larger
/// byte image, the header read at that offset yields the payload length and
/// the type tag that framed it, and the payload bytes that follow the
/// header are the payload that was written, byte for byte.
pub proof fn lemma_framed_atom_reads_back(
    prefix: Seq<u8>,
    type_urid: u32,
    payload: Seq<u8>,
    suffix: Seq<u8>,
)
    requires
        payload.len() <= u32::MAX,
    ensures
        ({
            let all = prefix + framed_atom(type_urid, payload) + suffix;
            let h = prefix.len() as int;
            &&& spec_u32_from_le_bytes(all.subrange(h, h + 4)) == payload.len()
            &&& spec_u32_from_le_bytes(all.subrange(h + 4, h + 8)) == type_urid
            &&& all.subrange(h + 8, h + 8 + payload.len()) == payload
        }),
{
    lemma_auto_spec_u32_to_from_le_bytes();
    let all = prefix + framed_atom(type_urid, payload) + suffix;
    let h = prefix.len() as int;
    assert_seqs_equal!(all.subrange(h, h + 4) == spec_u32_to_le_bytes(payload.len() as u32));
    assert_seqs_equal!(all.subrange(h + 4, h + 8) == spec_u32_to_le_bytes(type_urid));
    assert_seqs_equal!(all.subrange(h + 8, h + 8 + payload.len() as int) == payload);
}

/// An outer atom holding two sequentially written inner atoms reads back
/// with an outer payload size equal to the two inner framed lengths
/// together — each inner's header, payload and padding included — and each
/// inner atom parses intact at its own offset inside the outer payload.
pub proof fn lemma_nested_atoms_read_back(
    prefix: Seq<u8>,
    outer_urid: u32,
    urid1: u32,
    payload1: Seq<u8>,
    urid2: u32,
    payload2: Seq<u8>,
)
    requires
        payload1.len() <= u32::MAX,
        payload2.len() <= u32::MAX,
        framed_len(payload1.len() as int) + framed_len(payload2.len() as int) <= u32::MAX,
    ensures
        ({
            let inner = framed_atom(urid1, payload1) + framed_atom(urid2, payload2);
            let all = prefix + framed_atom(outer_urid, inner);
            let h = prefix.len() as int;
            let k = h + 8 + framed_len(payload1.len() as int);
            &&& inner.len() == framed_len(payload1.len() as int) + framed_len(
                payload2.len() as int,
            )
            &&& spec_u32_from_le_bytes(all.subrange(h, h + 4)) == framed_len(
                payload1.len() as int,
            ) + framed_len(payload2.len() as int)
            &&& spec_u32_from_le_bytes(all.subrange(h + 4, h + 8)) == outer_urid
            &&& spec_u32_from_le_bytes(all.subrange(h + 8, h + 12)) == payload1.len()
            &&& spec_u32_from_le_bytes(all.subrange(h + 12, h + 16)) == urid1
            &&& all.subrange(h + 16, h + 16 + payload1.len()) == payload1
            &&& spec_u32_from_le_bytes(all.subrange(k, k + 4)) == payload2.len()
            &&& spec_u32_from_le_bytes(all.subrange(k + 4, k + 8)) == urid2
            &&& all.subrange(k + 8, k + 8 + payload2.len()) == payload2
        }),
{
    lemma_auto_spec_u32_to_from_le_bytes();
    lemma_framed_len_aligned(payload1.len() as int);
    lemma_framed_len_aligned(payload2.len() as int);
    let f1 = framed_atom(urid1, payload1);
    let f2 = framed_atom(urid2, payload2);
    let inner = f1 + f2;
    let all = prefix + framed_atom(outer_urid, inner);
    let h = prefix.len() as int;
    assert(f1.len() == framed_len(payload1.len() as int));
    assert(f2.len() == framed_len(payload2.len() as int));
    assert(pad_len(inner.len() as int) == 0);
    lemma_framed_atom_reads_back(prefix, outer_urid, inner, Seq::<u8>::empty());
    assert(all =~= prefix + framed_atom(outer_urid, inner) + Seq::<u8>::empty());
    let head = prefix + spec_u32_to_le_bytes(inner.len() as u32) + spec_u32_to_le_bytes(
        outer_urid,
    );
    lemma_framed_atom_reads_back(head, urid1, payload1, f2);
    assert(all =~= head + f1 + f2);
    lemma_framed_atom_reads_back(head + f1, urid2, payload2, Seq::<u8>::empty());
    assert(all =~= (head + f1) + f2 + Seq::<u8>::empty());
    assert((head + f1).len() == h + 8 + framed_len(payload1.len() as int));
}

/// Resolution is a pure function of the cache's final state and the sample
/// count: resolving the same fully populated cache twice — or any number of
/// times within one processing call — yields equal collections.
pub proof fn lemma_resolution_idempotent<P: PortCollection>(
    cache: <P as PortCollection>::Cache,
    sample_count: u32,
    first: Option<P>,
    second: Option<P>,
)
    requires
        first == P::spec_from_connections(cache, sample_count),
        second == P::spec_from_connections(cache, sample_count),
    ensures
        first == second,
{
}

/// The order in which the host connects two different ports does not
/// matter: the cache's final state — all that resolution reads — is the
/// same either way.
pub proof fn lemma_connect_order_immaterial(
    slots: Seq<u64>,
    index1: int,
    pointer1: u64,
    index2: int,
    pointer2: u64,
)
    requires
        0 <= index1 < slots.len(),
        0 <= index2 < slots.len(),
        index1 != index2,
    ensures
        slots.update(index1, pointer1).update(index2, pointer2) == slots.update(
            index2,
            pointer2,
        ).update(index1, pointer1),
{
    assert_seqs_equal!(
        slots.update(index1, pointer1).update(index2, pointer2)
            == slots.update(index2, pointer2).update(index1, pointer1)
    );
}

} // verus!
