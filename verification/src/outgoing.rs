//! The decision core of the outgoing video worker.
//!
//! The worker owns a UDP socket, the camera and the encoder; at each tick
//! it reads its signal slot, acts, and — while streaming and bound —
//! encodes one frame, fragments each NAL unit, and sends the datagrams.
//! This module decides; the socket, camera and encoder work happen in the
//! worker around it.

use vstd::prelude::*;
use crate::signal::StreamSignal;

verus! {

/// The control flags of the outgoing worker.
#[derive(Clone, Copy, Debug, PartialEq, Eq, Structural)]
pub struct OutgoingStreamState {
    /// Frames are being encoded and sent.
    pub streaming: bool,
    /// The socket is connected to a destination.
    pub addr_bound: bool,
    /// The camera and encoder are open.
    pub stream_open: bool,
}

impl OutgoingStreamState {
    /// The state a fresh worker starts in: nothing open, nothing bound.
    pub fn new() -> (r: Self)
        ensures
            r == (OutgoingStreamState { streaming: false, addr_bound: false, stream_open: false }),
    {
        OutgoingStreamState { streaming: false, addr_bound: false, stream_open: false }
    }

    /// Whether the tick should encode and send a frame.
    pub fn is_active(&self) -> (r: bool)
        ensures
            r == (self.streaming && self.addr_bound),
    {
        self.streaming && self.addr_bound
    }
}

/// What the worker must do after dispatching one signal.
#[derive(Clone, Copy, Debug, PartialEq, Eq, Structural)]
pub struct OutgoingDirective {
    /// Reset the signal slot to idle: the signal was acted on.
    pub reset_signal: bool,
    /// Open the camera and encoder.
    pub open_stream: bool,
    /// Drop the camera and encoder handles.
    pub drop_stream: bool,
    /// Force the next encoded frame to be a keyframe.
    pub force_keyframe: bool,
    /// Leave the worker loop.
    pub exit: bool,
}

/// The directive that asks for nothing.
pub open spec fn spec_no_directive() -> OutgoingDirective {
    OutgoingDirective {
        reset_signal: false,
        open_stream: false,
        drop_stream: false,
        force_keyframe: false,
        exit: false,
    }
}

/// What one signal does to the outgoing worker.
///
/// `Pause` stops sending. `Disconnect` and `Terminate` drop the capture
/// and encoder handles and unbind; only `Disconnect` resets the slot, so
/// a `Terminate` stays visible and ends the loop. `Connect` acts only
/// when the socket connect succeeded: it opens the stream if it was
/// closed, forces a keyframe so the peer starts on an IDR, and starts
/// streaming; a failed connect changes nothing and leaves the signal in
/// place for the host to observe. `Resume` starts streaming again.
pub open spec fn spec_process_signal(
    pre: OutgoingStreamState,
    signal: StreamSignal,
    connect_ok: bool,
) -> (OutgoingStreamState, OutgoingDirective) {
    match signal {
        StreamSignal::Pause => (
            OutgoingStreamState { streaming: false, ..pre },
            OutgoingDirective { reset_signal: true, ..spec_no_directive() },
        ),
        StreamSignal::Disconnect => (
            OutgoingStreamState { streaming: false, addr_bound: false, stream_open: false },
            OutgoingDirective { reset_signal: true, drop_stream: true, ..spec_no_directive() },
        ),
        StreamSignal::Terminate => (
            OutgoingStreamState { streaming: false, addr_bound: false, stream_open: false },
            OutgoingDirective { drop_stream: true, exit: true, ..spec_no_directive() },
        ),
        StreamSignal::Connect => {
            if connect_ok {
                (
                    OutgoingStreamState { streaming: true, addr_bound: true, stream_open: true },
                    OutgoingDirective {
                        reset_signal: true,
                        open_stream: !pre.stream_open,
                        force_keyframe: true,
                        ..spec_no_directive()
                    },
                )
            } else {
                (pre, spec_no_directive())
            }
        },
        StreamSignal::Resume => (
            OutgoingStreamState { streaming: true, ..pre },
            OutgoingDirective { reset_signal: true, ..spec_no_directive() },
        ),
        StreamSignal::Idle => (pre, spec_no_directive()),
    }
}

impl OutgoingStreamState {
    /// Dispatches one signal. For `Connect`, `connect_ok` is whether the
    /// socket connect to the published destination succeeded; other
    /// signals ignore it.
    pub fn process_signal(&mut self, signal: StreamSignal, connect_ok: bool) -> (d:
        OutgoingDirective)
        ensures
            *final(self) == spec_process_signal(*old(self), signal, connect_ok).0,
            d == spec_process_signal(*old(self), signal, connect_ok).1,
    {
        match signal {
            StreamSignal::Pause => {
                self.streaming = false;
                OutgoingDirective {
                    reset_signal: true,
                    open_stream: false,
                    drop_stream: false,
                    force_keyframe: false,
                    exit: false,
                }
            },
            StreamSignal::Disconnect => {
                self.streaming = false;
                self.addr_bound = false;
                self.stream_open = false;
                OutgoingDirective {
                    reset_signal: true,
                    open_stream: false,
                    drop_stream: true,
                    force_keyframe: false,
                    exit: false,
                }
            },
            StreamSignal::Terminate => {
                self.streaming = false;
                self.addr_bound = false;
                self.stream_open = false;
                OutgoingDirective {
                    reset_signal: false,
                    open_stream: false,
                    drop_stream: true,
                    force_keyframe: false,
                    exit: true,
                }
            },
            StreamSignal::Connect => {
                if connect_ok {
                    let was_open = self.stream_open;
                    self.streaming = true;
                    self.addr_bound = true;
                    self.stream_open = true;
                    OutgoingDirective {
                        reset_signal: true,
                        open_stream: !was_open,
                        drop_stream: false,
                        force_keyframe: true,
                        exit: false,
                    }
                } else {
                    OutgoingDirective {
                        reset_signal: false,
                        open_stream: false,
                        drop_stream: false,
                        force_keyframe: false,
                        exit: false,
                    }
                }
            },
            StreamSignal::Resume => {
                self.streaming = true;
                OutgoingDirective {
                    reset_signal: true,
                    open_stream: false,
                    drop_stream: false,
                    force_keyframe: false,
                    exit: false,
                }
            },
            StreamSignal::Idle => {
                OutgoingDirective {
                    reset_signal: false,
                    open_stream: false,
                    drop_stream: false,
                    force_keyframe: false,
                    exit: false,
                }
            },
        }
    }
}

/// Keyframe on connect: a successful `Connect` always forces a keyframe,
/// so the first NAL unit sent to a new peer is an IDR.
pub proof fn lemma_keyframe_on_connect(pre: OutgoingStreamState)
    ensures
        spec_process_signal(pre, StreamSignal::Connect, true).1.force_keyframe,
        spec_process_signal(pre, StreamSignal::Connect, true).0.streaming,
        spec_process_signal(pre, StreamSignal::Connect, true).0.addr_bound,
{
}

} // verus!
