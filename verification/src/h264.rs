//! H.264 encoding and decoding for the video pipelines.
//!
//! The camera delivers packed YUYV frames; the verified conversion below
//! splits them into the planar form the encoder takes. The encoder and
//! decoder themselves are openh264's, reached through trusted wrappers.

use vstd::prelude::*;
use openh264::decoder::Decoder;
use openh264::encoder::Encoder;
use openh264::formats::{YUVSlices, YUVSource};

verus! {

/// The width of every captured and decoded frame, in pixels.
pub const WIDTH: usize = 640;

/// The height of every captured and decoded frame, in pixels.
pub const HEIGHT: usize = 480;

/// The UDP port an endpoint receives its incoming video stream on.
pub const VIDEO_STREAM_PORT: u16 = 7000;

/// The size of one packed YUYV frame: two bytes per pixel.
pub const YUYV_FRAME_SIZE: usize = 614400;

/// The size of one RGBA frame: four bytes per pixel.
pub const RGBA_FRAME_SIZE: usize = 1228800;

#[verifier::external_type_specification]
#[verifier::external_body]
pub struct ExEncoder(Encoder);

#[verifier::external_type_specification]
#[verifier::external_body]
pub struct ExDecoder(Decoder);

/// The luma plane of packed YUYV bytes: every even byte.
pub open spec fn spec_plane_y(raw: Seq<u8>) -> Seq<u8> {
    Seq::new((raw.len() / 2) as nat, |j: int| raw[2 * j])
}

/// The blue-difference plane of packed YUYV bytes: byte 1 of each
/// four-byte group.
pub open spec fn spec_plane_u(raw: Seq<u8>) -> Seq<u8> {
    Seq::new((raw.len() / 4) as nat, |k: int| raw[4 * k + 1])
}

/// The red-difference plane of packed YUYV bytes: byte 3 of each
/// four-byte group.
pub open spec fn spec_plane_v(raw: Seq<u8>) -> Seq<u8> {
    Seq::new((raw.len() / 4) as nat, |k: int| raw[4 * k + 3])
}

/// Splits a packed YUYV buffer into its Y, U and V planes. Each
/// four-byte group `Y0 U Y1 V` contributes both lumas to Y and one
/// sample each to U and V, so the chroma planes keep the full image
/// width as their stride.
pub fn yuyv_to_planes(raw: &[u8]) -> (r: (Vec<u8>, Vec<u8>, Vec<u8>))
    requires
        raw@.len() % 4 == 0,
    ensures
        r.0@ == spec_plane_y(raw@),
        r.1@ == spec_plane_u(raw@),
        r.2@ == spec_plane_v(raw@),
{
    let n = raw.len();
    let mut y: Vec<u8> = Vec::new();
    let mut u: Vec<u8> = Vec::new();
    let mut v: Vec<u8> = Vec::new();
    let mut k: usize = 0;
    while 4 * k < n
        invariant
            raw@.len() == n,
            n % 4 == 0,
            4 * k <= n,
            y@.len() == 2 * k,
            u@.len() == k,
            v@.len() == k,
            forall|j: int| 0 <= j < 2 * k ==> y@[j] == raw@[2 * j],
            forall|i: int| 0 <= i < k ==> u@[i] == raw@[4 * i + 1],
            forall|i: int| 0 <= i < k ==> v@[i] == raw@[4 * i + 3],
        decreases n - 4 * k,
    {
        let base = 4 * k;
        y.push(*vstd::slice::slice_index_get(raw, base));
        y.push(*vstd::slice::slice_index_get(raw, base + 2));
        u.push(*vstd::slice::slice_index_get(raw, base + 1));
        v.push(*vstd::slice::slice_index_get(raw, base + 3));
        k = k + 1;
    }
    assert(4 * k == n);
    assert(y@ =~= spec_plane_y(raw@));
    assert(u@ =~= spec_plane_u(raw@));
    assert(v@ =~= spec_plane_v(raw@));
    (y, u, v)
}

/// Relies on openh264's `Encoder::new`: a fresh encoder with default
/// settings, or none if the codec cannot be set up.
#[verifier::external_body]
fn encoder_new() -> (r: Option<Encoder>) {
    Encoder::new().ok()
}

/// Relies on openh264's `Encoder::encode` over a `YUVSlices` source of
/// one 640x480 planar frame with width-sized strides, and on
/// `EncodedBitStream::write_vec`, which appends the bitstream's NAL
/// units to a vector. What bytes come back depends on the encoder's
/// internal state, so nothing is promised of them. The length
/// preconditions are exactly what `YUVSlices::new` asserts.
#[verifier::external_body]
fn encoder_encode(enc: &mut Encoder, y: &[u8], u: &[u8], v: &[u8]) -> (r: Option<Vec<u8>>)
    requires
        y@.len() == 307200,
        u@.len() == 153600,
        v@.len() == 153600,
{
    let slices = YUVSlices::new((y, u, v), (640, 480), (640, 640, 640));
    match enc.encode(&slices) {
        Ok(bitstream) => {
            let mut out = Vec::new();
            bitstream.write_vec(&mut out);
            Some(out)
        },
        Err(_) => None,
    }
}

/// Relies on openh264's `Encoder::force_intra_frame`: the next encoded
/// frame is an IDR.
#[verifier::external_body]
fn encoder_force_intra(enc: &mut Encoder) {
    enc.force_intra_frame();
}

/// Relies on openh264's `Decoder::new`: a fresh decoder with default
/// settings, or none if the codec cannot be set up.
#[verifier::external_body]
fn decoder_new() -> (r: Option<Decoder>) {
    Decoder::new().ok()
}

/// Relies on openh264's `Decoder::decode` and `DecodedYUV::write_rgba8`.
/// A decoded picture comes back as its RGBA bytes with its width and
/// height; the target buffer is sized from those dimensions, which is
/// what `write_rgba8` asserts. `write_rgba8` also asserts that the
/// picture is in I420 form, which the openh264 decoder always produces.
/// A packet that yields no picture yet, or a decode error, comes back as
/// nothing.
#[verifier::external_body]
fn decoder_decode_rgba(dec: &mut Decoder, packet: &[u8]) -> (r: Option<(Vec<u8>, usize, usize)>)
    ensures
        match r {
            Some(frame) => frame.0@.len() == frame.1 * frame.2 * 4,
            None => true,
        },
{
    match dec.decode(packet) {
        Ok(Some(yuv)) => {
            let (w, h) = yuv.dimensions();
            let mut rgba = vec![0u8; w * h * 4];
            yuv.write_rgba8(&mut rgba);
            Some((rgba, w, h))
        },
        _ => None,
    }
}

/// A name for how openh264 cuts an annex-B byte stream at its start
/// codes: the unit boundaries depend on the bytes alone.
pub uninterp spec fn nal_split(stream: Seq<u8>) -> Seq<Seq<u8>>;

/// Relies on openh264's `nal_units`: splits a bitstream at its NAL start
/// codes. Each unit is a subslice of the input, so no unit is longer
/// than the stream; an empty stream has no units.
#[verifier::external_body]
fn nal_units_vec(stream: &[u8]) -> (r: Vec<Vec<u8>>)
    ensures
        r@.map_values(|u: Vec<u8>| u@) == nal_split(stream@),
        forall|i: int| 0 <= i < r@.len() ==> (#[trigger] r@[i])@.len() <= stream@.len(),
        stream@.len() == 0 ==> r@.len() == 0,
{
    openh264::nal_units(stream).map(|u| u.to_vec()).collect()
}

/// Opens a fresh H.264 encoder, if the codec can be set up.
pub fn create_encoder() -> (r: Option<Encoder>) {
    encoder_new()
}

/// Asks the encoder to make its next frame an IDR, so a newly connected
/// peer can start decoding at once.
pub fn request_keyframe(enc: &mut Encoder) {
    encoder_force_intra(enc);
}

/// Encodes one packed YUYV camera frame: splits it into planes and hands
/// them to the encoder. The bitstream that comes back, if any, is the
/// encoder's to shape.
pub fn encode_yuyv_frame(enc: &mut Encoder, raw: &[u8]) -> (r: Option<Vec<u8>>)
    requires
        raw@.len() == YUYV_FRAME_SIZE,
{
    let (y, u, v) = yuyv_to_planes(raw);
    assert(y@.len() == 307200 && u@.len() == 153600 && v@.len() == 153600);
    encoder_encode(enc, y.as_slice(), u.as_slice(), v.as_slice())
}

/// Cuts an encoded bitstream into its NAL units.
pub fn split_nal_units(stream: &[u8]) -> (r: Vec<Vec<u8>>)
    ensures
        r@.map_values(|u: Vec<u8>| u@) == nal_split(stream@),
        forall|i: int| 0 <= i < r@.len() ==> (#[trigger] r@[i])@.len() <= stream@.len(),
{
    nal_units_vec(stream)
}

/// Opens a fresh H.264 decoder, if the codec can be set up.
pub fn create_decoder() -> (r: Option<Decoder>) {
    decoder_new()
}

/// Stores one decoded picture in the shared frame slot, when and only
/// when it is a full 640x480 RGBA frame: `w` and `h` are the picture's
/// dimensions as the decoder reported them. Any other picture leaves
/// the slot as it was.
pub fn store_decoded_frame(frame: &Vec<u8>, w: usize, h: usize, slot: &mut Vec<u8>) -> (stored:
    bool)
    requires
        old(slot)@.len() == RGBA_FRAME_SIZE,
    ensures
        stored == (frame@.len() == RGBA_FRAME_SIZE && w == WIDTH && h == HEIGHT),
        stored ==> final(slot)@ == frame@,
        !stored ==> final(slot)@ == old(slot)@,
{
    if frame.len() == RGBA_FRAME_SIZE && w == WIDTH && h == HEIGHT {
        let mut i: usize = 0;
        while i < RGBA_FRAME_SIZE
            invariant
                frame@.len() == RGBA_FRAME_SIZE,
                slot@.len() == RGBA_FRAME_SIZE,
                i <= RGBA_FRAME_SIZE,
                forall|j: int| 0 <= j < i ==> slot@[j] == frame@[j],
            decreases RGBA_FRAME_SIZE - i,
        {
            let b = frame[i];
            slot[i] = b;
            i = i + 1;
        }
        assert(slot@ =~= frame@);
        true
    } else {
        false
    }
}

/// Decodes one reassembled NAL unit and hands whatever picture comes out
/// to `store_decoded_frame`: a full 640x480 picture replaces the shared
/// frame slot's contents, anything else leaves the slot as it was. A
/// unit that yields no picture, and decoder errors, drop silently.
pub fn decode_unit_into_slot(dec: &mut Decoder, unit: &[u8], slot: &mut Vec<u8>) -> (stored: bool)
    requires
        old(slot)@.len() == RGBA_FRAME_SIZE,
    ensures
        final(slot)@.len() == RGBA_FRAME_SIZE,
        !stored ==> final(slot)@ == old(slot)@,
{
    match decoder_decode_rgba(dec, unit) {
        Some((rgba, w, h)) => store_decoded_frame(&rgba, w, h, slot),
        None => false,
    }
}

} // verus!
