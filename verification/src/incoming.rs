//! The decision core of the incoming video worker.
//!
//! The worker owns a UDP socket bound to the local video port; it reads
//! its signal slot, and while connected it receives datagrams, feeds them
//! to the NAL reassembler, and decodes completed units. Five seconds of
//! silence while connected drop the connection. This module decides; the
//! socket and decoder work happen in the worker around it.

use vstd::prelude::*;
use crate::nal::{nal_add_safe, is_terminator, NalBuilder, NAL_BUFFER_SIZE};
use crate::signal::StreamSignal;

verus! {

/// How long, in milliseconds, the peer may stay silent while connected
/// before the connection counts as lost.
pub const CONNECTION_TIMEOUT_MS: u64 = 5000;

/// The socket read timeout of the incoming worker, in milliseconds.
pub const SINGLE_READ_TIMEOUT_MS: u64 = 100;

/// The control flags of the incoming worker.
#[derive(Clone, Copy, Debug, PartialEq, Eq, Structural)]
pub struct IncomingStreamState {
    /// Datagrams from the accepted peer are being taken.
    pub connected: bool,
}

/// What the worker must do after dispatching one signal.
#[derive(Clone, Copy, Debug, PartialEq, Eq, Structural)]
pub struct IncomingDirective {
    /// Reset the signal slot to idle: the signal was acted on.
    pub reset_signal: bool,
    /// Reset the NAL reassembler and clear any pending socket error.
    pub reset_builder: bool,
    /// Leave the worker loop.
    pub exit: bool,
}

/// The directive that asks for nothing.
pub open spec fn spec_no_incoming_directive() -> IncomingDirective {
    IncomingDirective { reset_signal: false, reset_builder: false, exit: false }
}

/// What one signal does to the incoming worker.
///
/// `Connect` acts only when the socket connect to the published peer
/// succeeded: the reassembler restarts, stale socket errors are cleared,
/// and the worker counts as connected; a failed connect changes nothing
/// and leaves the signal in place. `Disconnect` stops taking datagrams.
/// `Terminate` ends the loop.
pub open spec fn spec_process_incoming_signal(
    pre: IncomingStreamState,
    signal: StreamSignal,
    connect_ok: bool,
) -> (IncomingStreamState, IncomingDirective) {
    match signal {
        StreamSignal::Connect => {
            if connect_ok {
                (
                    IncomingStreamState { connected: true },
                    IncomingDirective { reset_signal: true, reset_builder: true, exit: false },
                )
            } else {
                (pre, spec_no_incoming_directive())
            }
        },
        StreamSignal::Disconnect => (
            IncomingStreamState { connected: false },
            IncomingDirective { reset_signal: true, reset_builder: false, exit: false },
        ),
        StreamSignal::Terminate => (
            pre,
            IncomingDirective { reset_signal: false, reset_builder: false, exit: true },
        ),
        _ => (pre, spec_no_incoming_directive()),
    }
}

impl IncomingStreamState {
    /// The state a fresh worker starts in: not connected.
    pub fn new() -> (r: Self)
        ensures
            r == (IncomingStreamState { connected: false }),
    {
        IncomingStreamState { connected: false }
    }

    /// Dispatches one signal. For `Connect`, `connect_ok` is whether the
    /// socket connect to the published peer succeeded; other signals
    /// ignore it.
    pub fn process_signal(&mut self, signal: StreamSignal, connect_ok: bool) -> (d:
        IncomingDirective)
        ensures
            *final(self) == spec_process_incoming_signal(*old(self), signal, connect_ok).0,
            d == spec_process_incoming_signal(*old(self), signal, connect_ok).1,
    {
        match signal {
            StreamSignal::Connect => {
                if connect_ok {
                    self.connected = true;
                    IncomingDirective { reset_signal: true, reset_builder: true, exit: false }
                } else {
                    IncomingDirective { reset_signal: false, reset_builder: false, exit: false }
                }
            },
            StreamSignal::Disconnect => {
                self.connected = false;
                IncomingDirective { reset_signal: true, reset_builder: false, exit: false }
            },
            StreamSignal::Terminate => {
                IncomingDirective { reset_signal: false, reset_builder: false, exit: true }
            },
            _ => {
                IncomingDirective { reset_signal: false, reset_builder: false, exit: false }
            },
        }
    }

    /// Decides, on a read timeout, whether the peer has been silent too
    /// long and the connection counts as lost: strictly more than
    /// `CONNECTION_TIMEOUT_MS` milliseconds since the last datagram.
    pub fn connection_timed_out(&self, now_ms: u64, last_packet_ms: u64) -> (r: bool)
        requires
            last_packet_ms <= now_ms,
        ensures
            r == (self.connected && now_ms - last_packet_ms > CONNECTION_TIMEOUT_MS),
    {
        self.connected && now_ms - last_packet_ms > CONNECTION_TIMEOUT_MS
    }
}

impl NalBuilder {
    /// Whether one datagram payload can be fed to the builder without
    /// hitting its machine limits: any terminator or short payload, and a
    /// data fragment whose identifier is positive and whose data fits the
    /// buffer. The worker checks this before every `add_data`.
    pub fn can_add_data(&self, buf: &[u8]) -> (r: bool)
        requires
            self@.wf(),
        ensures
            r == nal_add_safe(self@, buf@),
    {
        if is_terminator(buf) {
            return true;
        }
        let n = buf.len();
        if n <= 4 {
            return true;
        }
        match Self::decode_frame(buf) {
            Err(_) => true,
            Ok((data, ident)) => {
                if ident == 0 {
                    return false;
                }
                let resets = self.finished || ident <= self.last_packet;
                let last = if resets {
                    0
                } else {
                    self.last_packet
                };
                let cursor = if resets {
                    0
                } else {
                    self.end_idx
                };
                let failed = if resets {
                    false
                } else {
                    self.failed
                };
                if !failed && ident - 1 == last {
                    data.len() <= NAL_BUFFER_SIZE - cursor
                } else {
                    true
                }
            },
        }
    }
}

} // verus!
