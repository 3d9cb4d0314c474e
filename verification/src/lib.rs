//! A peer-to-peer LAN video chat endpoint: the SCP session-control protocol,
//! the UDP fragmentation scheme for H.264 NAL units, and the worker state
//! machines that drive the outgoing and incoming video pipelines.

pub mod client;
pub mod codec;
pub mod fragment;
pub mod listener;
pub mod frame;
pub mod h264;
pub mod incoming;
pub mod nal;
pub mod outgoing;
pub mod signal;
pub mod prefs;
pub mod wire;

use vstd::prelude::*;

verus! {

/// The payload of the terminator datagram that ends one NAL unit on the wire:
/// eleven ASCII `'1'` bytes.
pub open spec fn spec_frame_end() -> Seq<u8> {
    seq![49u8, 49, 49, 49, 49, 49, 49, 49, 49, 49, 49]
}

/// The terminator datagram payload as a byte vector.
pub fn frame_end_bytes() -> (r: Vec<u8>)
    ensures
        r@ == spec_frame_end(),
{
    let mut v: Vec<u8> = Vec::new();
    let mut i: usize = 0;
    while i < 11
        invariant
            i <= 11,
            v@.len() == i,
            forall|j: int| 0 <= j < i ==> v@[j] == 49u8,
        decreases 11 - i,
    {
        v.push(49);
        i = i + 1;
    }
    assert(v@ =~= spec_frame_end());
    v
}

} // verus!
