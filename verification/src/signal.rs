//! The one-byte control signals a host publishes to a stream worker.
//!
//! A worker reads its signal slot at each tick, acts on it, and resets it
//! once the action is done.

use vstd::prelude::*;

verus! {

/// A control intent for a stream worker.
#[derive(Clone, Copy, Debug, PartialEq, Eq, Structural)]
pub enum StreamSignal {
    /// Nothing to do.
    Idle,
    /// Stop streaming until another connection.
    Disconnect,
    /// Pause the stream, to be resumed later.
    Pause,
    /// Resume after a pause, or start after a connect.
    Resume,
    /// Connect to the address published in the destination slot.
    Connect,
    /// Leave the worker loop.
    Terminate,
}

impl StreamSignal {
    /// The byte a signal occupies the slot as.
    pub open spec fn spec_code(self) -> u8 {
        match self {
            StreamSignal::Idle => 0,
            StreamSignal::Disconnect => 2,
            StreamSignal::Pause => 4,
            StreamSignal::Resume => 8,
            StreamSignal::Connect => 16,
            StreamSignal::Terminate => 32,
        }
    }

    /// The byte a signal occupies the slot as.
    pub fn code(&self) -> (r: u8)
        ensures
            r == self.spec_code(),
    {
        match self {
            StreamSignal::Idle => 0,
            StreamSignal::Disconnect => 2,
            StreamSignal::Pause => 4,
            StreamSignal::Resume => 8,
            StreamSignal::Connect => 16,
            StreamSignal::Terminate => 32,
        }
    }

    /// The signal a slot byte stands for; an unknown byte asks for
    /// nothing and reads as `Idle`.
    pub open spec fn spec_from_code(code: u8) -> StreamSignal {
        if code == 2 {
            StreamSignal::Disconnect
        } else if code == 4 {
            StreamSignal::Pause
        } else if code == 8 {
            StreamSignal::Resume
        } else if code == 16 {
            StreamSignal::Connect
        } else if code == 32 {
            StreamSignal::Terminate
        } else {
            StreamSignal::Idle
        }
    }

    /// The signal a slot byte stands for.
    pub fn from_code(code: u8) -> (r: StreamSignal)
        ensures
            r == Self::spec_from_code(code),
    {
        if code == 2 {
            StreamSignal::Disconnect
        } else if code == 4 {
            StreamSignal::Pause
        } else if code == 8 {
            StreamSignal::Resume
        } else if code == 16 {
            StreamSignal::Connect
        } else if code == 32 {
            StreamSignal::Terminate
        } else {
            StreamSignal::Idle
        }
    }

    /// A signal written to the slot reads back as itself.
    pub proof fn lemma_code_round_trip(s: StreamSignal)
        ensures
            Self::spec_from_code(s.spec_code()) == s,
    {
    }
}

} // verus!
