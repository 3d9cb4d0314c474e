//! An endpoint's connection preferences and their wire form.
//!
//! Preferences travel in the body of a `PreferencesShare` message as a
//! self-describing key/value text: one `key=value` line per field, ports
//! as five-digit decimal numbers.

use vstd::prelude::*;
use crate::wire::{region_eq, spec_region_eq};

verus! {

/// Available video encoding formats.
#[derive(Clone, Copy, Debug, PartialEq, Eq, Structural)]
pub enum VideoEncoding {
    /// H.264 via the bundled codec.
    H264,
}

/// Available audio encoding formats. Audio is not yet carried.
#[derive(Clone, Copy, Debug, PartialEq, Eq, Structural)]
pub enum AudioEncoding {
    /// No audio encoding has been settled on.
    NoIdea,
}

/// The preferences an endpoint announces when establishing a connection.
#[derive(Clone, Copy, Debug, PartialEq, Eq, Structural)]
pub struct Preferences {
    /// The video encoding this endpoint expects to receive.
    pub video_encoding: VideoEncoding,
    /// The audio encoding this endpoint expects to receive.
    pub audio_encoding: AudioEncoding,
    /// The UDP port this endpoint listens on for video.
    pub port_in_video: u16,
    /// The UDP port this endpoint listens on for audio.
    pub port_in_audio: u16,
    /// The TCP port this endpoint's SCP listener is bound to.
    pub port_scp: u16,
}

impl Preferences {
    /// The default preferences: H.264 video on port 7000, audio on 7001,
    /// SCP listener on 60201.
    pub open spec fn spec_default() -> Preferences {
        Preferences {
            video_encoding: VideoEncoding::H264,
            audio_encoding: AudioEncoding::NoIdea,
            port_in_video: 7000u16,
            port_in_audio: 7001u16,
            port_scp: 60201u16,
        }
    }
}

impl Default for Preferences {
    /// H.264 video on port 7000, audio on 7001, SCP listener on 60201.
    fn default() -> (r: Self)
        ensures
            r == Preferences::spec_default(),
    {
        Preferences {
            video_encoding: VideoEncoding::H264,
            audio_encoding: AudioEncoding::NoIdea,
            port_in_video: 7000,
            port_in_audio: 7001,
            port_scp: 60201,
        }
    }
}

/// The line `"video_encoding=H264\n"`.
pub open spec fn spec_line_video(p: Preferences) -> Seq<u8> {
    seq![118u8, 105, 100, 101, 111, 95, 101, 110, 99, 111, 100, 105, 110, 103, 61, 72, 50, 54, 52, 10]
}

/// The line `"audio_encoding=NoIdea\n"`.
pub open spec fn spec_line_audio(p: Preferences) -> Seq<u8> {
    seq![97u8, 117, 100, 105, 111, 95, 101, 110, 99, 111, 100, 105, 110, 103, 61, 78, 111, 73, 100, 101, 97, 10]
}

/// Five decimal digits, high to low, zero padded: the text of a port.
pub open spec fn spec_dec5(v: u16) -> Seq<u8> {
    seq![
        (48 + (v as int) / 10000 % 10) as u8,
        (48 + (v as int) / 1000 % 10) as u8,
        (48 + (v as int) / 100 % 10) as u8,
        (48 + (v as int) / 10 % 10) as u8,
        (48 + (v as int) % 10) as u8,
    ]
}

/// The number five decimal digit bytes spell, high to low.
pub open spec fn spec_dec5_value(s: Seq<u8>) -> int
    recommends
        s.len() == 5,
{
    (s[0] - 48) * 10000 + (s[1] - 48) * 1000 + (s[2] - 48) * 100 + (s[3] - 48) * 10 + (s[4] - 48)
}

/// Whether five bytes are all decimal digits.
pub open spec fn spec_dec5_digits(s: Seq<u8>) -> bool
    recommends
        s.len() == 5,
{
    forall|i: int| 0 <= i < 5 ==> 48 <= #[trigger] s[i] <= 57
}

/// The line `"port_in_video=NNNNN\n"`.
pub open spec fn spec_line_port_video(p: Preferences) -> Seq<u8> {
    seq![112u8, 111, 114, 116, 95, 105, 110, 95, 118, 105, 100, 101, 111, 61] + spec_dec5(
        p.port_in_video,
    ) + seq![10u8]
}

/// The line `"port_in_audio=NNNNN\n"`.
pub open spec fn spec_line_port_audio(p: Preferences) -> Seq<u8> {
    seq![112u8, 111, 114, 116, 95, 105, 110, 95, 97, 117, 100, 105, 111, 61] + spec_dec5(
        p.port_in_audio,
    ) + seq![10u8]
}

/// The line `"port_scp=NNNNN\n"`.
pub open spec fn spec_line_port_scp(p: Preferences) -> Seq<u8> {
    seq![112u8, 111, 114, 116, 95, 115, 99, 112, 61] + spec_dec5(p.port_scp) + seq![10u8]
}

/// The full wire text of a preferences record: five `key=value` lines,
/// 97 bytes in all.
pub open spec fn spec_prefs_bytes(p: Preferences) -> Seq<u8> {
    spec_line_video(p) + spec_line_audio(p) + spec_line_port_video(p) + spec_line_port_audio(p)
        + spec_line_port_scp(p)
}

/// What a byte string parses to as a preferences record, if anything:
/// exactly the wire texts of records are accepted.
pub open spec fn spec_prefs_parse(s: Seq<u8>) -> Option<Preferences> {
    if s.len() == 97 && spec_dec5_digits(s.subrange(56, 61)) && spec_dec5_digits(
        s.subrange(76, 81),
    ) && spec_dec5_digits(s.subrange(91, 96)) && spec_dec5_value(s.subrange(56, 61)) <= 65535
        && spec_dec5_value(s.subrange(76, 81)) <= 65535 && spec_dec5_value(s.subrange(91, 96))
        <= 65535 && {
        let p = Preferences {
            video_encoding: VideoEncoding::H264,
            audio_encoding: AudioEncoding::NoIdea,
            port_in_video: spec_dec5_value(s.subrange(56, 61)) as u16,
            port_in_audio: spec_dec5_value(s.subrange(76, 81)) as u16,
            port_scp: spec_dec5_value(s.subrange(91, 96)) as u16,
        };
        s == spec_prefs_bytes(p)
    } {
        Some(
            Preferences {
                video_encoding: VideoEncoding::H264,
                audio_encoding: AudioEncoding::NoIdea,
                port_in_video: spec_dec5_value(s.subrange(56, 61)) as u16,
                port_in_audio: spec_dec5_value(s.subrange(76, 81)) as u16,
                port_scp: spec_dec5_value(s.subrange(91, 96)) as u16,
            },
        )
    } else {
        None
    }
}

/// Reading back the five digits of a port gives the port.
pub proof fn lemma_dec5_round_trip(v: u16)
    ensures
        spec_dec5(v).len() == 5,
        spec_dec5_digits(spec_dec5(v)),
        spec_dec5_value(spec_dec5(v)) == v,
{
    let n = v as int;
    assert(n / 10000 % 10 * 10000 + n / 1000 % 10 * 1000 + n / 100 % 10 * 100 + n / 10 % 10 * 10 + n
        % 10 == n) by (nonlinear_arith)
        requires
            0 <= n < 65536,
    ;
}

/// Preferences round trip: the wire text of any record parses back to
/// that record.
pub proof fn lemma_prefs_round_trip(p: Preferences)
    ensures
        spec_prefs_parse(spec_prefs_bytes(p)) == Some(p),
{
    let s = spec_prefs_bytes(p);
    lemma_dec5_round_trip(p.port_in_video);
    lemma_dec5_round_trip(p.port_in_audio);
    lemma_dec5_round_trip(p.port_scp);
    assert(s.len() == 97);
    assert(s.subrange(56, 61) =~= spec_dec5(p.port_in_video));
    assert(s.subrange(76, 81) =~= spec_dec5(p.port_in_audio));
    assert(s.subrange(91, 96) =~= spec_dec5(p.port_scp));
}

/// Writes the five decimal digits of a port, high to low.
fn push_dec5(out: &mut Vec<u8>, v: u16)
    ensures
        final(out)@ == old(out)@ + spec_dec5(v),
{
    out.push(48 + ((v / 10000) % 10) as u8);
    out.push(48 + ((v / 1000) % 10) as u8);
    out.push(48 + ((v / 100) % 10) as u8);
    out.push(48 + ((v / 10) % 10) as u8);
    out.push(48 + (v % 10) as u8);
    assert(out@ =~= old(out)@ + spec_dec5(v));
}

/// Writes the line `"video_encoding=H264\n"`.
fn push_line_video(out: &mut Vec<u8>, p: &Preferences)
    ensures
        final(out)@ == old(out)@ + spec_line_video(*p),
{
    out.push(118);
    out.push(105);
    out.push(100);
    out.push(101);
    out.push(111);
    out.push(95);
    out.push(101);
    out.push(110);
    out.push(99);
    out.push(111);
    out.push(100);
    out.push(105);
    out.push(110);
    out.push(103);
    out.push(61);
    out.push(72);
    out.push(50);
    out.push(54);
    out.push(52);
    out.push(10);
    assert(out@ =~= old(out)@ + spec_line_video(*p));
}

/// Writes the line `"audio_encoding=NoIdea\n"`.
fn push_line_audio(out: &mut Vec<u8>, p: &Preferences)
    ensures
        final(out)@ == old(out)@ + spec_line_audio(*p),
{
    out.push(97);
    out.push(117);
    out.push(100);
    out.push(105);
    out.push(111);
    out.push(95);
    out.push(101);
    out.push(110);
    out.push(99);
    out.push(111);
    out.push(100);
    out.push(105);
    out.push(110);
    out.push(103);
    out.push(61);
    out.push(78);
    out.push(111);
    out.push(73);
    out.push(100);
    out.push(101);
    out.push(97);
    out.push(10);
    assert(out@ =~= old(out)@ + spec_line_audio(*p));
}

/// Writes the line `"port_in_video=NNNNN\n"`.
fn push_line_port_video(out: &mut Vec<u8>, p: &Preferences)
    ensures
        final(out)@ == old(out)@ + spec_line_port_video(*p),
{
    out.push(112);
    out.push(111);
    out.push(114);
    out.push(116);
    out.push(95);
    out.push(105);
    out.push(110);
    out.push(95);
    out.push(118);
    out.push(105);
    out.push(100);
    out.push(101);
    out.push(111);
    out.push(61);
    push_dec5(out, p.port_in_video);
    out.push(10);
    assert(out@ =~= old(out)@ + spec_line_port_video(*p));
}

/// Writes the line `"port_in_audio=NNNNN\n"`.
fn push_line_port_audio(out: &mut Vec<u8>, p: &Preferences)
    ensures
        final(out)@ == old(out)@ + spec_line_port_audio(*p),
{
    out.push(112);
    out.push(111);
    out.push(114);
    out.push(116);
    out.push(95);
    out.push(105);
    out.push(110);
    out.push(95);
    out.push(97);
    out.push(117);
    out.push(100);
    out.push(105);
    out.push(111);
    out.push(61);
    push_dec5(out, p.port_in_audio);
    out.push(10);
    assert(out@ =~= old(out)@ + spec_line_port_audio(*p));
}

/// Writes the line `"port_scp=NNNNN\n"`.
fn push_line_port_scp(out: &mut Vec<u8>, p: &Preferences)
    ensures
        final(out)@ == old(out)@ + spec_line_port_scp(*p),
{
    out.push(112);
    out.push(111);
    out.push(114);
    out.push(116);
    out.push(95);
    out.push(115);
    out.push(99);
    out.push(112);
    out.push(61);
    push_dec5(out, p.port_scp);
    out.push(10);
    assert(out@ =~= old(out)@ + spec_line_port_scp(*p));
}

/// Serializes a preferences record to its wire text.
pub fn serialize_preferences(p: &Preferences) -> (r: Vec<u8>)
    ensures
        r@ == spec_prefs_bytes(*p),
        r@.len() == 97,
{
    let mut v: Vec<u8> = Vec::new();
    push_line_video(&mut v, p);
    push_line_audio(&mut v, p);
    push_line_port_video(&mut v, p);
    push_line_port_audio(&mut v, p);
    push_line_port_scp(&mut v, p);
    assert(v@ =~= spec_prefs_bytes(*p));
    v
}

/// Reads the five decimal digits that start at `at`.
fn parse_dec5(s: &[u8], at: usize) -> (r: Option<u16>)
    requires
        at + 5 <= s@.len(),
    ensures
        match r {
            Some(v) => spec_dec5_digits(s@.subrange(at as int, at + 5)) && spec_dec5_value(
                s@.subrange(at as int, at + 5),
            ) == v,
            None => !(spec_dec5_digits(s@.subrange(at as int, at + 5)) && spec_dec5_value(
                s@.subrange(at as int, at + 5),
            ) <= 65535),
        },
{
    let ghost d = s@.subrange(at as int, at + 5);
    let n = s.len();
    let b0 = *vstd::slice::slice_index_get(s, at);
    let b1 = *vstd::slice::slice_index_get(s, at + 1);
    let b2 = *vstd::slice::slice_index_get(s, at + 2);
    let b3 = *vstd::slice::slice_index_get(s, at + 3);
    let b4 = *vstd::slice::slice_index_get(s, at + 4);
    assert(d[0] == b0 && d[1] == b1 && d[2] == b2 && d[3] == b3 && d[4] == b4);
    if b0 < 48 || b0 > 57 || b1 < 48 || b1 > 57 || b2 < 48 || b2 > 57 || b3 < 48 || b3 > 57 || b4
        < 48 || b4 > 57 {
        assert(!spec_dec5_digits(d));
        return None;
    }
    assert(spec_dec5_digits(d));
    let value: u32 = (b0 - 48) as u32 * 10000 + (b1 - 48) as u32 * 1000 + (b2 - 48) as u32 * 100 + (
    b3 - 48) as u32 * 10 + (b4 - 48) as u32;
    if value > 65535 {
        None
    } else {
        Some(value as u16)
    }
}

/// Parses the wire text of a preferences record. Only the exact wire
/// texts that `serialize_preferences` writes are accepted.
pub fn parse_preferences(s: &[u8]) -> (r: Option<Preferences>)
    ensures
        r == spec_prefs_parse(s@),
{
    if s.len() != 97 {
        return None;
    }
    let pv = parse_dec5(s, 56);
    let pa = parse_dec5(s, 76);
    let ps = parse_dec5(s, 91);
    match (pv, pa, ps) {
        (Some(port_in_video), Some(port_in_audio), Some(port_scp)) => {
            let p = Preferences {
                video_encoding: VideoEncoding::H264,
                audio_encoding: AudioEncoding::NoIdea,
                port_in_video,
                port_in_audio,
                port_scp,
            };
            let expected = serialize_preferences(&p);
            if region_eq(s, 0, &expected) {
                assert(s@ =~= spec_prefs_bytes(p));
                Some(p)
            } else {
                assert(s@ != spec_prefs_bytes(p)) by {
                    assert(s@.subrange(0, 97) =~= s@);
                }
                None
            }
        },
        _ => {
            None
        },
    }
}

} // verus!
