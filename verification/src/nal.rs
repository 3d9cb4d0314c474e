//! Reassembly of one H.264 NAL unit from ordered UDP fragments.
//!
//! Each fragment carries up to 504 data bytes followed by a little-endian
//! `u32` identifier that starts at 1 and increases by 1 within one unit. A
//! terminator datagram of eleven ASCII `'1'` bytes marks the unit's end. A
//! gap in the identifiers fails the unit; the builder resets implicitly
//! when a fragment opens a new unit.

use vstd::prelude::*;
use crate::spec_frame_end;
use crate::wire::{spec_u32_of_le, u32_of_le};

verus! {

/// The size of the reassembly scratch buffer: the largest NAL unit held.
pub const NAL_BUFFER_SIZE: usize = 65535;

/// The mathematical state of a reassembly buffer.
pub struct NalModel {
    /// A terminator datagram has arrived for the current unit.
    pub finished: bool,
    /// The current unit was lost to a gap in the fragment identifiers.
    pub failed: bool,
    /// The scratch buffer, always `NAL_BUFFER_SIZE` bytes.
    pub buffer: Seq<u8>,
    /// The identifier of the last fragment taken into the buffer.
    pub last_packet: u32,
    /// The write cursor: bytes `[0, end_idx)` hold the unit so far.
    pub end_idx: int,
}

impl NalModel {
    /// A builder in a sound state: buffer of the fixed size, cursor inside it.
    pub open spec fn wf(self) -> bool {
        &&& self.buffer.len() == NAL_BUFFER_SIZE
        &&& 0 <= self.end_idx <= NAL_BUFFER_SIZE
    }
}

/// Whether a datagram payload is the unit terminator.
pub open spec fn spec_is_terminator(f: Seq<u8>) -> bool {
    f == spec_frame_end()
}

/// The data bytes of a fragment: all but the trailing identifier.
pub open spec fn spec_frag_data(f: Seq<u8>) -> Seq<u8> {
    f.subrange(0, f.len() - 4)
}

/// The identifier of a fragment: its trailing four bytes, little endian.
pub open spec fn spec_frag_ident(f: Seq<u8>) -> u32 {
    spec_u32_of_le(f.subrange(f.len() - 4, f.len() as int))
}

/// `buf` with `data` written in place starting at `at`.
pub open spec fn seq_write(buf: Seq<u8>, at: int, data: Seq<u8>) -> Seq<u8> {
    Seq::new(buf.len(), |i: int| if at <= i < at + data.len() { data[i - at] } else { buf[i] })
}

/// A fresh unit: flags and cursor cleared, buffer contents left alone.
pub open spec fn nal_reset(m: NalModel) -> NalModel {
    NalModel { finished: false, failed: false, last_packet: 0, end_idx: 0, buffer: m.buffer }
}

/// What one datagram does to the reassembly state.
///
/// A terminator marks the unit finished. A payload of at most four bytes
/// is discarded. Any other payload splits into data and identifier; the
/// builder resets first when the fragment opens a new unit (the previous
/// one finished, or the identifier does not increase), ignores the
/// fragment when the current unit already failed, fails the unit on a gap,
/// and otherwise appends the data at the cursor.
pub open spec fn nal_step(m: NalModel, f: Seq<u8>) -> NalModel {
    if spec_is_terminator(f) {
        NalModel { finished: true, ..m }
    } else if f.len() <= 4 {
        m
    } else {
        let data = spec_frag_data(f);
        let ident = spec_frag_ident(f);
        let m1 = if m.finished || ident <= m.last_packet {
            nal_reset(m)
        } else {
            m
        };
        if m1.failed {
            m1
        } else if ident > m1.last_packet + 1 {
            NalModel { failed: true, ..m1 }
        } else {
            NalModel {
                last_packet: ident,
                buffer: seq_write(m1.buffer, m1.end_idx, data),
                end_idx: m1.end_idx + data.len(),
                ..m1
            }
        }
    }
}

/// The machine limits under which one datagram is handled without panic:
/// a data fragment's identifier is at least 1, and data that is appended
/// fits in the scratch buffer.
pub open spec fn nal_add_safe(m: NalModel, f: Seq<u8>) -> bool {
    spec_is_terminator(f) || f.len() <= 4 || {
        let data = spec_frag_data(f);
        let ident = spec_frag_ident(f);
        let m1 = if m.finished || ident <= m.last_packet {
            nal_reset(m)
        } else {
            m
        };
        &&& ident >= 1
        &&& (!m1.failed && ident == m1.last_packet + 1 ==> m1.end_idx + data.len()
            <= NAL_BUFFER_SIZE)
    }
}

/// The complete unit held by the state, when one is held: the bytes below
/// the cursor, after a terminator and with no failure.
pub open spec fn spec_take_unit(m: NalModel) -> Option<Seq<u8>> {
    if m.finished && !m.failed {
        Some(m.buffer.subrange(0, m.end_idx))
    } else {
        None
    }
}

/// Compares a datagram payload against the unit terminator.
pub fn is_terminator(buf: &[u8]) -> (r: bool)
    ensures
        r == spec_is_terminator(buf@),
{
    if buf.len() != 11 {
        assert(buf@ != spec_frame_end());
        return false;
    }
    let mut i: usize = 0;
    while i < 11
        invariant
            buf@.len() == 11,
            i <= 11,
            forall|j: int| 0 <= j < i ==> buf@[j] == 49u8,
        decreases 11 - i,
    {
        if *vstd::slice::slice_index_get(buf, i) != 49u8 {
            assert(buf@[i as int] != spec_frame_end()[i as int]);
            return false;
        }
        i = i + 1;
    }
    assert(buf@ =~= spec_frame_end());
    true
}

/// The state after a sequence of datagrams is fed to the builder in order.
pub open spec fn nal_run(m: NalModel, frags: Seq<Seq<u8>>) -> NalModel
    decreases frags.len(),
{
    if frags.len() == 0 {
        m
    } else {
        nal_step(nal_run(m, frags.drop_last()), frags.last())
    }
}

/// Fragments that spell out one unit in order: each is a data fragment,
/// and the identifiers count 1, 2, 3, … from the front.
pub open spec fn spec_ordered_fragments(frags: Seq<Seq<u8>>) -> bool {
    forall|i: int|
        0 <= i < frags.len() ==> {
            &&& (#[trigger] frags[i]).len() > 4
            &&& !spec_is_terminator(frags[i])
            &&& spec_frag_ident(frags[i]) == i + 1
        }
}

/// The data bytes of a fragment sequence, in order.
pub open spec fn spec_concat_data(frags: Seq<Seq<u8>>) -> Seq<u8>
    decreases frags.len(),
{
    if frags.len() == 0 {
        Seq::empty()
    } else {
        spec_concat_data(frags.drop_last()) + spec_frag_data(frags.last())
    }
}

/// While ordered fragments of one unit arrive, the builder accumulates
/// exactly their data, stays unfinished and unfailed, and hands no unit out.
pub proof fn lemma_reassembly_accumulates(m0: NalModel, frags: Seq<Seq<u8>>)
    requires
        m0.wf(),
        m0 == nal_reset(m0),
        spec_ordered_fragments(frags),
        spec_concat_data(frags).len() <= NAL_BUFFER_SIZE,
    ensures
        nal_run(m0, frags).wf(),
        !nal_run(m0, frags).finished,
        !nal_run(m0, frags).failed,
        nal_run(m0, frags).last_packet == frags.len(),
        nal_run(m0, frags).end_idx == spec_concat_data(frags).len(),
        nal_run(m0, frags).buffer.subrange(0, nal_run(m0, frags).end_idx) == spec_concat_data(
            frags,
        ),
        spec_take_unit(nal_run(m0, frags)) is None,
    decreases frags.len(),
{
    if frags.len() == 0 {
        assert(nal_run(m0, frags).buffer.subrange(0, 0) =~= spec_concat_data(frags));
    } else {
        let prefix = frags.drop_last();
        let f = frags.last();
        assert(spec_ordered_fragments(prefix)) by {
            assert(forall|i: int| 0 <= i < prefix.len() ==> prefix[i] == frags[i]);
        }
        assert(spec_concat_data(frags) == spec_concat_data(prefix) + spec_frag_data(f));
        lemma_reassembly_accumulates(m0, prefix);
        let m1 = nal_run(m0, prefix);
        let m2 = nal_step(m1, f);
        assert(spec_frag_ident(f) == frags.len());
        assert(m2.buffer.subrange(0, m2.end_idx) =~= spec_concat_data(frags));
    }
}

/// Reassembler happy path: fragments carrying `data_1, …, data_k` with
/// identifiers `1, …, k` yield no unit until the terminator arrives, and
/// then exactly the concatenation of the data, in order.
pub proof fn lemma_reassembly_happy_path(m0: NalModel, frags: Seq<Seq<u8>>)
    requires
        m0.wf(),
        m0 == nal_reset(m0),
        spec_ordered_fragments(frags),
        spec_concat_data(frags).len() <= NAL_BUFFER_SIZE,
    ensures
        spec_take_unit(nal_run(m0, frags)) is None,
        spec_take_unit(nal_step(nal_run(m0, frags), spec_frame_end())) == Some(
            spec_concat_data(frags),
        ),
{
    lemma_reassembly_accumulates(m0, frags);
}

/// Reassembler gap: a fragment with identifier 1 followed by one whose
/// identifier skips ahead fails the unit, and the terminator then hands
/// no unit out.
pub proof fn lemma_reassembly_gap(m0: NalModel, f1: Seq<u8>, f3: Seq<u8>)
    requires
        m0.wf(),
        m0 == nal_reset(m0),
        f1.len() > 4,
        !spec_is_terminator(f1),
        spec_frag_ident(f1) == 1,
        f1.len() - 4 <= NAL_BUFFER_SIZE,
        f3.len() > 4,
        !spec_is_terminator(f3),
        spec_frag_ident(f3) > 2,
    ensures
        nal_step(nal_step(m0, f1), f3).failed,
        spec_take_unit(nal_step(nal_step(nal_step(m0, f1), f3), spec_frame_end())) is None,
{
}

/// Reassembler restart: once a unit has ended, a fragment with
/// identifier 1 resets the builder and starts a new unit holding exactly
/// that fragment's data.
pub proof fn lemma_reassembly_restart(m: NalModel, f: Seq<u8>)
    requires
        m.wf(),
        m.finished || m.last_packet >= 1,
        f.len() > 4,
        !spec_is_terminator(f),
        spec_frag_ident(f) == 1,
        f.len() - 4 <= NAL_BUFFER_SIZE,
    ensures
        nal_step(m, f) == nal_step(nal_reset(m), f),
        !nal_step(m, f).finished,
        !nal_step(m, f).failed,
        nal_step(m, f).last_packet == 1,
        nal_step(m, f).end_idx == f.len() - 4,
        nal_step(m, f).buffer.subrange(0, f.len() - 4) == spec_frag_data(f),
{
    let r = nal_step(m, f);
    assert(r.buffer.subrange(0, f.len() - 4) =~= spec_frag_data(f));
}

/// Rebuilds one H.264 NAL unit from ordered UDP fragments.
pub struct NalBuilder {
    /// A terminator datagram has arrived for the current unit.
    pub finished: bool,
    /// The current unit was lost to a gap in the fragment identifiers.
    pub failed: bool,
    /// The scratch buffer, sized for the largest NAL unit possible.
    pub nal_unit_buffer: Vec<u8>,
    /// Identifier of the last fragment taken. A lost fragment fails the unit.
    pub last_packet: u32,
    /// Bytes `[0, end_idx)` of the buffer hold the unit gathered so far.
    pub end_idx: usize,
}

impl View for NalBuilder {
    type V = NalModel;

    open spec fn view(&self) -> NalModel {
        NalModel {
            finished: self.finished,
            failed: self.failed,
            buffer: self.nal_unit_buffer@,
            last_packet: self.last_packet,
            end_idx: self.end_idx as int,
        }
    }
}

impl Default for NalBuilder {
    /// An empty builder over a zeroed scratch buffer.
    fn default() -> (r: Self)
        ensures
            r@.wf(),
            r@ == nal_reset(r@),
            r@.buffer =~= Seq::new(NAL_BUFFER_SIZE as nat, |i: int| 0u8),
    {
        let buffer: Vec<u8> = vec![0u8; NAL_BUFFER_SIZE];
        assert(buffer@ =~= Seq::new(NAL_BUFFER_SIZE as nat, |i: int| 0u8));
        NalBuilder {
            finished: false,
            failed: false,
            nal_unit_buffer: buffer,
            last_packet: 0,
            end_idx: 0,
        }
    }
}

impl NalBuilder {
    /// An empty builder over a zeroed scratch buffer.
    pub fn new() -> (r: Self)
        ensures
            r@.wf(),
            r@ == nal_reset(r@),
            r@.buffer =~= Seq::new(NAL_BUFFER_SIZE as nat, |i: int| 0u8),
    {
        Self::default()
    }

    /// The complete unit, if a terminator arrived and no fragment was lost.
    /// Does not clear the builder: the next unit's first fragment does.
    pub fn get_nal_unit(&self) -> (r: Option<&[u8]>)
        requires
            self@.wf(),
        ensures
            match r {
                Some(unit) => spec_take_unit(self@) == Some(unit@),
                None => spec_take_unit(self@) is None,
            },
    {
        if self.finished && !self.failed {
            Some(vstd::slice::slice_subrange(self.nal_unit_buffer.as_slice(), 0, self.end_idx))
        } else {
            None
        }
    }

    /// Clears the flags and the cursor so a new unit can start.
    pub fn reset(&mut self)
        ensures
            final(self)@ == nal_reset(old(self)@),
    {
        self.finished = false;
        self.failed = false;
        self.last_packet = 0;
        self.end_idx = 0;
    }

    /// Splits a datagram payload into data and trailing identifier.
    /// Payloads of at most four bytes are not fragments and are refused.
    pub fn decode_frame(data: &[u8]) -> (r: Result<(&[u8], u32), ()>)
        ensures
            data@.len() > 4 ==> (r is Ok && r->Ok_0.0@ == spec_frag_data(data@) && r->Ok_0.1
                == spec_frag_ident(data@)),
            data@.len() <= 4 ==> r is Err,
    {
        let n = data.len();
        if n > 4 {
            let ident_slice = vstd::slice::slice_subrange(data, n - 4, n);
            let ident = u32_of_le(ident_slice);
            Ok((vstd::slice::slice_subrange(data, 0, n - 4), ident))
        } else {
            Err(())
        }
    }

    /// Feeds one datagram payload to the builder.
    pub fn add_data(&mut self, buf: &[u8])
        requires
            old(self)@.wf(),
            nal_add_safe(old(self)@, buf@),
        ensures
            final(self)@.wf(),
            final(self)@ == nal_step(old(self)@, buf@),
    {
        if is_terminator(buf) {
            self.finished = true;
            return;
        }
        match Self::decode_frame(buf) {
            Err(_) => {},
            Ok((data, ident)) => {
                if self.finished || ident <= self.last_packet {
                    self.reset();
                }
                if self.failed {
                    return;
                }
                let missing = ident - 1 - self.last_packet;
                if missing > 0 {
                    self.failed = true;
                    return;
                }
                self.last_packet = ident;
                let ghost buf0 = self.nal_unit_buffer@;
                let ghost at = self.end_idx as int;
                let mut i: usize = 0;
                while i < data.len()
                    invariant
                        self.nal_unit_buffer@.len() == NAL_BUFFER_SIZE,
                        at + data@.len() <= NAL_BUFFER_SIZE,
                        at == self.end_idx,
                        self.finished == false,
                        self.failed == false,
                        self.last_packet == ident,
                        i <= data@.len(),
                        forall|j: int|
                            0 <= j < i ==> self.nal_unit_buffer@[at + j] == data@[j],
                        forall|j: int|
                            0 <= j < NAL_BUFFER_SIZE && !(at <= j < at + i)
                                ==> self.nal_unit_buffer@[j] == buf0[j],
                    decreases data@.len() - i,
                {
                    let b = *vstd::slice::slice_index_get(data, i);
                    self.nal_unit_buffer[self.end_idx + i] = b;
                    i = i + 1;
                }
                self.end_idx = self.end_idx + data.len();
                assert(self.nal_unit_buffer@ =~= seq_write(buf0, at, buf@.subrange(
                    0,
                    buf@.len() - 4,
                )));
            },
        }
    }
}

} // verus!
