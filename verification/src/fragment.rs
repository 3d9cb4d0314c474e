//! Fragmentation of one H.264 NAL unit into bounded UDP datagrams.
//!
//! A unit is cut into chunks of at most 504 data bytes; each chunk is
//! followed by a little-endian `u32` identifier counting from 1, and the
//! unit closes with the eleven-byte terminator datagram.

use vstd::prelude::*;
use crate::{frame_end_bytes, spec_frame_end};
use crate::nal::{
    nal_reset, nal_run, nal_step, spec_concat_data, spec_frag_data, spec_frag_ident,
    spec_is_terminator, spec_ordered_fragments, spec_take_unit, lemma_reassembly_happy_path,
    NalModel, NAL_BUFFER_SIZE,
};
use crate::wire::{
    lemma_u32_le_high_byte, lemma_u32_le_round_trip, spec_u32_le, u32_le,
};

verus! {

/// The data bytes carried by one UDP fragment, excluding the identifier.
pub const PACKET_DATA_SIZE: usize = 504;

/// How many data fragments a unit of `len` bytes is cut into.
pub open spec fn spec_chunk_count(len: int) -> int {
    (len + 503) / 504
}

/// The `i`-th data fragment of a unit: its `i`-th chunk of at most 504
/// bytes followed by the little-endian identifier `i + 1`.
pub open spec fn spec_fragment(unit: Seq<u8>, i: int) -> Seq<u8> {
    unit.subrange(
        504 * i,
        if 504 * (i + 1) <= unit.len() {
            504 * (i + 1)
        } else {
            unit.len() as int
        },
    ) + spec_u32_le((i + 1) as u32)
}

/// All data fragments of a unit, in send order, without the terminator.
pub open spec fn spec_data_fragments(unit: Seq<u8>) -> Seq<Seq<u8>> {
    Seq::new(spec_chunk_count(unit.len() as int) as nat, |i: int| spec_fragment(unit, i))
}

/// Cuts a NAL unit into its UDP datagram payloads: the data fragments in
/// order, then the terminator.
pub fn fragment_nal_unit(unit: &[u8]) -> (r: Vec<Vec<u8>>)
    requires
        unit@.len() <= 504 * 0x7fff_ffff,
    ensures
        r@.len() == spec_chunk_count(unit@.len() as int) + 1,
        forall|i: int|
            0 <= i < spec_chunk_count(unit@.len() as int) ==> (#[trigger] r@[i])@
                == spec_fragment(unit@, i),
        r@[r@.len() - 1]@ == spec_frame_end(),
{
    let ghost len = unit@.len() as int;
    let n = unit.len();
    let mut r: Vec<Vec<u8>> = Vec::new();
    let mut i: usize = 0;
    let mut offset: usize = 0;
    while offset < n
        invariant
            unit@.len() == n,
            n <= 504 * 0x7fff_ffff,
            offset <= n,
            504 * i >= offset,
            offset < n ==> offset == 504 * i,
            offset == 504 * i || offset == n,
            i > 0 ==> 504 * (i - 1) < n,
            r@.len() == i,
            forall|j: int| 0 <= j < i ==> (#[trigger] r@[j])@ == spec_fragment(unit@, j),
        decreases n - offset,
    {
        let chunk_len: usize = if n - offset >= 504 {
            504
        } else {
            n - offset
        };
        let chunk_end = offset + chunk_len;
        let mut frag = vstd::slice::slice_to_vec(
            vstd::slice::slice_subrange(unit, offset, chunk_end),
        );
        let mut ident = u32_le((i + 1) as u32);
        frag.append(&mut ident);
        assert(frag@ =~= spec_fragment(unit@, i as int));
        r.push(frag);
        i = i + 1;
        offset = chunk_end;
    }
    assert(offset == n);
    assert(i == spec_chunk_count(len)) by {
        if i == 0 {
            assert(n == 0);
        } else {
            assert(504 * (i - 1) < n <= 504 * i);
        }
    }
    r.push(frame_end_bytes());
    r
}

/// Cuts a NAL unit into datagrams after checking that its length lets
/// every fragment identifier fit; a longer unit comes back untouched as
/// nothing. The worker calls this on whatever the encoder produced.
pub fn fragment_nal_unit_checked(unit: &[u8]) -> (r: Option<Vec<Vec<u8>>>)
    ensures
        r is Some <==> unit@.len() <= 504 * 0x7fff_ffff,
        match r {
            Some(frags) => {
                &&& frags@.len() == spec_chunk_count(unit@.len() as int) + 1
                &&& forall|i: int|
                    0 <= i < spec_chunk_count(unit@.len() as int) ==> (#[trigger] frags@[i])@
                        == spec_fragment(unit@, i)
                &&& frags@[frags@.len() - 1]@ == spec_frame_end()
            },
            None => true,
        },
{
    if unit.len() as u64 <= 504u64 * 0x7fff_ffff {
        Some(fragment_nal_unit(unit))
    } else {
        None
    }
}

/// The data fragments of a unit are ordered and none of them spells the
/// terminator, so the reassembler reads them as one unit.
pub proof fn lemma_fragments_ordered(unit: Seq<u8>)
    requires
        unit.len() <= NAL_BUFFER_SIZE,
    ensures
        spec_ordered_fragments(spec_data_fragments(unit)),
{
    lemma_u32_le_round_trip();
    let frags = spec_data_fragments(unit);
    assert forall|i: int| 0 <= i < frags.len() implies {
        &&& (#[trigger] frags[i]).len() > 4
        &&& !spec_is_terminator(frags[i])
        &&& spec_frag_ident(frags[i]) == i + 1
    } by {
        let f = frags[i];
        assert(504 * i < unit.len()) by {
            assert(i < spec_chunk_count(unit.len() as int));
        }
        assert(f.len() > 4);
        assert(f.subrange(f.len() - 4, f.len() as int) =~= spec_u32_le((i + 1) as u32));
        assert(spec_frag_ident(f) == i + 1);
        lemma_u32_le_high_byte((i + 1) as u32);
        assert(f[f.len() - 1] == 0u8);
        assert(spec_frame_end()[10] == 49u8);
        assert(!spec_is_terminator(f));
    }
}

/// Concatenating the chunks of a unit gives the unit back.
pub proof fn lemma_chunks_rebuild(unit: Seq<u8>)
    requires
        unit.len() <= NAL_BUFFER_SIZE,
    ensures
        spec_concat_data(spec_data_fragments(unit)) == unit,
    decreases unit.len(),
{
    lemma_u32_le_round_trip();
    let frags = spec_data_fragments(unit);
    let k = spec_chunk_count(unit.len() as int);
    if k == 0 {
        assert(unit.len() == 0);
        assert(spec_concat_data(frags) =~= unit);
    } else {
        let cut = 504 * (k - 1);
        assert(0 <= cut < unit.len()) by {
            assert(k - 1 < spec_chunk_count(unit.len() as int));
        }
        let prefix = unit.subrange(0, cut);
        assert(spec_chunk_count(prefix.len() as int) == k - 1) by {
            assert(prefix.len() == 504 * (k - 1));
        }
        lemma_chunks_rebuild(prefix);
        let pfrags = spec_data_fragments(prefix);
        assert(frags.drop_last() =~= pfrags) by {
            assert forall|i: int| 0 <= i < k - 1 implies frags[i] == pfrags[i] by {
                assert(spec_fragment(unit, i) =~= spec_fragment(prefix, i));
            }
        }
        assert(spec_frag_data(frags.last()) =~= unit.subrange(cut, unit.len() as int));
        assert(spec_concat_data(frags) == spec_concat_data(pfrags) + unit.subrange(
            cut,
            unit.len() as int,
        ));
        assert(prefix + unit.subrange(cut, unit.len() as int) =~= unit);
    }
}

/// Round trip of the video wire format: the datagrams that
/// `fragment_nal_unit` cuts a unit into, fed in order to a fresh
/// reassembler, yield no unit until the terminator and then exactly the
/// original unit.
pub proof fn lemma_fragment_reassemble(m0: NalModel, unit: Seq<u8>)
    requires
        m0.wf(),
        m0 == nal_reset(m0),
        unit.len() <= NAL_BUFFER_SIZE,
    ensures
        spec_take_unit(nal_run(m0, spec_data_fragments(unit))) is None,
        spec_take_unit(nal_step(nal_run(m0, spec_data_fragments(unit)), spec_frame_end()))
            == Some(unit),
{
    lemma_fragments_ordered(unit);
    lemma_chunks_rebuild(unit);
    lemma_reassembly_happy_path(m0, spec_data_fragments(unit));
}

} // verus!
