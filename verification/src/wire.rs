//! Little-endian encoding of the 32-bit packet identifier that trails
//! every UDP video fragment.

use vstd::prelude::*;

verus! {

/// The four little-endian bytes of a `u32`.
pub open spec fn spec_u32_le(x: u32) -> Seq<u8> {
    seq![
        (x & 0xff) as u8,
        ((x >> 8) & 0xff) as u8,
        ((x >> 16) & 0xff) as u8,
        ((x >> 24) & 0xff) as u8,
    ]
}

/// The `u32` read from four little-endian bytes.
pub open spec fn spec_u32_of_le(s: Seq<u8>) -> u32
    recommends
        s.len() == 4,
{
    (s[0] as u32) | (s[1] as u32) << 8 | (s[2] as u32) << 16 | (s[3] as u32) << 24
}

/// The two encodings invert each other.
pub proof fn lemma_u32_le_round_trip()
    ensures
        forall|x: u32| #[trigger] spec_u32_of_le(spec_u32_le(x)) == x,
        forall|s: Seq<u8>| s.len() == 4 ==> #[trigger] spec_u32_le(spec_u32_of_le(s)) =~= s,
{
    assert forall|x: u32| #[trigger] spec_u32_of_le(spec_u32_le(x)) == x by {
        assert((x & 0xff) < 256 && ((x >> 8) & 0xff) < 256 && ((x >> 16) & 0xff) < 256 && ((x >> 24)
            & 0xff) < 256) by (bit_vector);
        assert(x == ((x & 0xff) | ((x >> 8) & 0xff) << 8 | ((x >> 16) & 0xff) << 16 | ((x >> 24)
            & 0xff) << 24)) by (bit_vector);
    }
    assert forall|s: Seq<u8>| s.len() == 4 implies #[trigger] spec_u32_le(spec_u32_of_le(s))
        =~= s by {
        let x = spec_u32_of_le(s);
        let s0 = s[0] as u32;
        let s1 = s[1] as u32;
        let s2 = s[2] as u32;
        let s3 = s[3] as u32;
        assert(((x == s0 | s1 << 8 | s2 << 16 | s3 << 24) && s0 < 256 && s1 < 256 && s2 < 256 && s3
            < 256) ==> (s0 == (x & 0xff) && s1 == ((x >> 8) & 0xff) && s2 == ((x >> 16) & 0xff)
            && s3 == ((x >> 24) & 0xff))) by (bit_vector);
    }
}

/// An identifier below `2^24` has a zero high byte, so no data fragment
/// that carries it can spell the all-`'1'` terminator datagram.
pub proof fn lemma_u32_le_high_byte(x: u32)
    requires
        x < 0x1000000,
    ensures
        spec_u32_le(x)[3] == 0u8,
{
    assert(x < 0x1000000 ==> ((x >> 24) & 0xff) == 0) by (bit_vector);
}

/// Whether `pat` occurs in `raw` starting at position `at`.
pub open spec fn spec_region_eq(raw: Seq<u8>, at: int, pat: Seq<u8>) -> bool {
    raw.subrange(at, at + pat.len()) == pat
}

/// Compares `pat` against the bytes of `raw` that start at `at`.
pub fn region_eq(raw: &[u8], at: usize, pat: &Vec<u8>) -> (r: bool)
    requires
        at + pat@.len() <= raw@.len(),
    ensures
        r == spec_region_eq(raw@, at as int, pat@),
{
    let n = raw.len();
    let mut i: usize = 0;
    while i < pat.len()
        invariant
            at + pat@.len() <= raw@.len(),
            raw@.len() == n,
            i <= pat@.len(),
            forall|j: int| 0 <= j < i ==> raw@[at + j] == pat@[j],
        decreases pat@.len() - i,
    {
        if *vstd::slice::slice_index_get(raw, at + i) != pat[i] {
            assert(raw@.subrange(at as int, at + pat@.len())[i as int] != pat@[i as int]);
            return false;
        }
        i = i + 1;
    }
    assert(raw@.subrange(at as int, at + pat@.len()) =~= pat@);
    true
}

/// Encodes a `u32` as four little-endian bytes.
pub fn u32_le(x: u32) -> (r: Vec<u8>)
    ensures
        r@ == spec_u32_le(x),
{
    let mut v: Vec<u8> = Vec::new();
    v.push((x & 0xff) as u8);
    v.push(((x >> 8) & 0xff) as u8);
    v.push(((x >> 16) & 0xff) as u8);
    v.push(((x >> 24) & 0xff) as u8);
    assert(v@ =~= spec_u32_le(x));
    v
}

/// Reads a `u32` from four little-endian bytes.
pub fn u32_of_le(s: &[u8]) -> (r: u32)
    requires
        s@.len() == 4,
    ensures
        r == spec_u32_of_le(s@),
{
    let b0 = *vstd::slice::slice_index_get(s, 0) as u32;
    let b1 = *vstd::slice::slice_index_get(s, 1) as u32;
    let b2 = *vstd::slice::slice_index_get(s, 2) as u32;
    let b3 = *vstd::slice::slice_index_get(s, 3) as u32;
    assert(b1 << 8 <= 0xff00 && b2 << 16 <= 0xff0000 && b3 << 24 <= 0xff000000u32) by (bit_vector)
        requires
            b1 < 256 && b2 < 256 && b3 < 256,
    ;
    b0 | b1 << 8 | b2 << 16 | b3 << 24
}

} // verus!
