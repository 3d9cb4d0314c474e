//! Reassembly of YUYV data frames from UDP fragments, with two buffers so
//! a finished frame stays readable while the next one is written.
//!
//! Unlike the NAL reassembler, this builder tolerates missing fragments:
//! data lands at the position its identifier dictates and gaps keep
//! whatever bytes the buffer held.

use vstd::prelude::*;
use crate::spec_frame_end;
use crate::nal::seq_write;
use crate::wire::{spec_u32_of_le, u32_of_le};

verus! {

/// The size of each of the two frame buffers.
pub const FRAME_BUFFER_SIZE: usize = 524288;

/// The mathematical state of a frame builder.
pub struct FrameModel {
    /// A terminator datagram has arrived for the current frame.
    pub finished: bool,
    /// The two frame buffers, each `FRAME_BUFFER_SIZE` bytes.
    pub buffers: Seq<Seq<u8>>,
    /// Which buffer the current frame is being written to.
    pub selected: int,
    /// The identifier of the last fragment written.
    pub last_packet: u32,
}

impl FrameModel {
    /// A builder in a sound state: two full-size buffers, a valid selection.
    pub open spec fn wf(self) -> bool {
        &&& self.buffers.len() == 2
        &&& self.buffers[0].len() == FRAME_BUFFER_SIZE
        &&& self.buffers[1].len() == FRAME_BUFFER_SIZE
        &&& 0 <= self.selected < 2
    }
}

/// Whether the first `n` bytes of a received datagram mark a frame end.
pub open spec fn spec_frame_terminator(buf: Seq<u8>, n: int) -> bool {
    n == 11 && buf.len() >= 11 && buf.subrange(0, 11) == spec_frame_end()
}

/// Flipping to the other buffer for a new frame.
pub open spec fn frame_switch(m: FrameModel) -> FrameModel {
    FrameModel { finished: false, last_packet: 0, selected: 1 - m.selected, ..m }
}

/// What one datagram of `n` received bytes does to the builder.
///
/// A terminator marks the frame finished. A payload of at most four bytes
/// is discarded. Any other payload splits into data and identifier; the
/// builder flips buffers first when the fragment opens a new frame, and
/// writes the data where the identifier points: byte offset
/// `(ident - 1) * 504` of the selected buffer.
pub open spec fn frame_step(m: FrameModel, buf: Seq<u8>, n: int) -> FrameModel {
    if spec_frame_terminator(buf, n) {
        FrameModel { finished: true, ..m }
    } else if n <= 4 {
        m
    } else {
        let data = buf.subrange(0, n - 4);
        let ident = spec_u32_of_le(buf.subrange(n - 4, n));
        let m1 = if m.finished || ident <= m.last_packet {
            frame_switch(m)
        } else {
            m
        };
        FrameModel {
            last_packet: ident,
            buffers: m1.buffers.update(
                m1.selected,
                seq_write(m1.buffers[m1.selected], 504 * (ident - 1), data),
            ),
            ..m1
        }
    }
}

/// The machine limits under which one datagram is handled without panic:
/// a data fragment's identifier is at least 1 and its data lands inside
/// the frame buffer.
pub open spec fn frame_add_safe(m: FrameModel, buf: Seq<u8>, n: int) -> bool {
    spec_frame_terminator(buf, n) || n <= 4 || {
        let ident = spec_u32_of_le(buf.subrange(n - 4, n));
        &&& ident >= 1
        &&& 504 * (ident - 1) + (n - 4) <= FRAME_BUFFER_SIZE
    }
}

/// Reassembles YUYV data frames from UDP fragments, two buffers deep.
pub struct FrameBuilder {
    /// A terminator datagram has arrived for the current frame.
    pub finished: bool,
    /// The two frame buffers; the one not selected holds the last frame.
    pub buffers: Vec<Vec<u8>>,
    /// Which buffer the current frame is being written to.
    pub selected_buffer: usize,
    /// The identifier of the last fragment written.
    pub last_packet: u32,
}

impl View for FrameBuilder {
    type V = FrameModel;

    open spec fn view(&self) -> FrameModel {
        FrameModel {
            finished: self.finished,
            buffers: Seq::new(self.buffers@.len(), |i: int| self.buffers@[i]@),
            selected: self.selected_buffer as int,
            last_packet: self.last_packet,
        }
    }
}

impl Default for FrameBuilder {
    /// An empty builder over two zeroed buffers.
    fn default() -> (r: Self)
        ensures
            r@.wf(),
            !r@.finished,
            r@.last_packet == 0,
            r@.selected == 0,
            forall|i: int, j: int|
                0 <= i < 2 && 0 <= j < FRAME_BUFFER_SIZE ==> r@.buffers[i][j] == 0u8,
    {
        let mut buffers: Vec<Vec<u8>> = Vec::new();
        buffers.push(vec![0u8; FRAME_BUFFER_SIZE]);
        buffers.push(vec![0u8; FRAME_BUFFER_SIZE]);
        FrameBuilder { finished: false, buffers, selected_buffer: 0, last_packet: 0 }
    }
}

impl FrameBuilder {
    /// An empty builder over two zeroed buffers.
    pub fn new() -> (r: Self)
        ensures
            r@.wf(),
            !r@.finished,
            r@.last_packet == 0,
            r@.selected == 0,
            forall|i: int, j: int|
                0 <= i < 2 && 0 <= j < FRAME_BUFFER_SIZE ==> r@.buffers[i][j] == 0u8,
    {
        Self::default()
    }

    /// The buffer a new frame would go to: the one not selected.
    pub fn next_buffer(&self) -> (r: usize)
        requires
            self@.wf(),
        ensures
            r == 1 - self@.selected,
    {
        (self.selected_buffer + 1) % 2
    }

    /// Flips to the other buffer so a new frame can start.
    pub fn switch_buffer(&mut self)
        requires
            old(self)@.wf(),
        ensures
            final(self)@ == frame_switch(old(self)@),
            final(self)@.wf(),
    {
        self.last_packet = 0;
        self.selected_buffer = (self.selected_buffer + 1) % 2;
        self.finished = false;
        assert(final(self)@.buffers =~= old(self)@.buffers);
    }

    /// The buffer holding the last completed frame: the one not selected.
    pub fn get_last_frame(&self) -> (r: Option<&Vec<u8>>)
        requires
            self@.wf(),
        ensures
            r is Some,
            r->Some_0@ == self@.buffers[1 - self@.selected],
    {
        let other = (self.selected_buffer + 1) % 2;
        Some(vstd::std_specs::vec::vec_index(&self.buffers, other))
    }

    /// Splits a datagram payload into data and trailing identifier.
    /// Payloads of at most four bytes are not fragments and are refused.
    pub fn decode_frame(data: &[u8]) -> (r: Result<(&[u8], u32), ()>)
        ensures
            data@.len() > 4 ==> (r is Ok && r->Ok_0.0@ == data@.subrange(0, data@.len() - 4)
                && r->Ok_0.1 == spec_u32_of_le(data@.subrange(data@.len() - 4, data@.len() as int))),
            data@.len() <= 4 ==> r is Err,
    {
        let n = data.len();
        if n > 4 {
            let ident_slice = vstd::slice::slice_subrange(data, n - 4, n);
            let ident = u32_of_le(ident_slice);
            Ok((vstd::slice::slice_subrange(data, 0, n - 4), ident))
        } else {
            Err(())
        }
    }

    /// Feeds the first `n` bytes of a received datagram to the builder.
    pub fn add_data(&mut self, buf: &[u8], n: usize)
        requires
            old(self)@.wf(),
            n <= buf@.len(),
            frame_add_safe(old(self)@, buf@, n as int),
        ensures
            final(self)@.wf(),
            final(self)@ == frame_step(old(self)@, buf@, n as int),
    {
        let is_end = n == 11 && buf.len() >= 11 && crate::nal::is_terminator(
            vstd::slice::slice_subrange(buf, 0, 11),
        );
        if is_end {
            self.finished = true;
            return;
        }
        match Self::decode_frame(vstd::slice::slice_subrange(buf, 0, n)) {
            Err(_) => {},
            Ok((data, ident)) => {
                assert(data@ == buf@.subrange(0, n - 4));
                if self.finished || ident <= self.last_packet {
                    self.switch_buffer();
                }
                let missing = ident - 1 - self.last_packet;
                let offset = missing * 504;
                let start = self.last_packet * 504 + offset;
                assert(start == 504 * (ident - 1));
                let ghost m1 = self@;
                let sel = self.selected_buffer;
                let inner = vstd::std_specs::vec::vec_index_mut(&mut self.buffers, sel);
                let mut i: usize = 0;
                while i < data.len()
                    invariant
                        inner@.len() == FRAME_BUFFER_SIZE,
                        start + data@.len() <= FRAME_BUFFER_SIZE,
                        i <= data@.len(),
                        forall|j: int| 0 <= j < i ==> inner@[start + j] == data@[j],
                        forall|j: int|
                            0 <= j < FRAME_BUFFER_SIZE && !(start <= j < start + i) ==> inner@[j]
                                == m1.buffers[m1.selected][j],
                    decreases data@.len() - i,
                {
                    let b = *vstd::slice::slice_index_get(data, i);
                    let start_i = start as usize + i;
                    inner[start_i] = b;
                    i = i + 1;
                }
                assert(inner@ =~= seq_write(m1.buffers[m1.selected], 504 * (ident - 1), data@));
                self.last_packet = ident;
                assert(final(self)@.buffers =~= frame_step(old(self)@, buf@, n as int).buffers);
            },
        }
    }
}

} // verus!
