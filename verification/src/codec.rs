//! The SCP message codec.
//!
//! An SCP control message travels as `HEADER ‖ command (LE u16) ‖ body ‖
//! 0x0A ‖ END`, where `HEADER` is the 12 bytes `"12345654321\n"` and `END`
//! is the 11 bytes `"1234564321\n"`. Commands that carry a payload
//! (`Start`, `KeyShare`, `PreferencesShare`, `SimpleMessage`) must have a
//! non-empty body.

use vstd::prelude::*;
use vstd::bytes::{
    lemma_auto_spec_u16_to_from_le_bytes, spec_u16_from_le_bytes, spec_u16_to_le_bytes,
    u16_from_le_bytes, u16_to_le_bytes,
};
use crate::wire::region_eq;

verus! {

/// The 12-byte message header `"12345654321\n"`.
pub open spec fn spec_scp_header() -> Seq<u8> {
    seq![49u8, 50, 51, 52, 53, 54, 53, 52, 51, 50, 49, 10]
}

/// The 11-byte message trailer `"1234564321\n"`.
pub open spec fn spec_scp_end() -> Seq<u8> {
    seq![49u8, 50, 51, 52, 53, 54, 52, 51, 50, 49, 10]
}

/// The message header as a byte vector.
pub fn scp_header_bytes() -> (r: Vec<u8>)
    ensures
        r@ == spec_scp_header(),
{
    let mut v: Vec<u8> = Vec::new();
    v.push(49);
    v.push(50);
    v.push(51);
    v.push(52);
    v.push(53);
    v.push(54);
    v.push(53);
    v.push(52);
    v.push(51);
    v.push(50);
    v.push(49);
    v.push(10);
    assert(v@ =~= spec_scp_header());
    v
}

/// The message trailer as a byte vector.
pub fn scp_end_bytes() -> (r: Vec<u8>)
    ensures
        r@ == spec_scp_end(),
{
    let mut v: Vec<u8> = Vec::new();
    v.push(49);
    v.push(50);
    v.push(51);
    v.push(52);
    v.push(53);
    v.push(54);
    v.push(52);
    v.push(51);
    v.push(50);
    v.push(49);
    v.push(10);
    assert(v@ =~= spec_scp_end());
    v
}

/// The SCP command set. On the wire a command is its index in order of
/// definition, as a little-endian `u16`.
#[derive(Clone, Copy, Debug, PartialEq, Eq, Structural)]
pub enum ScpCommand {
    /// Opens a session; the body carries the sender's own SCP listen port.
    Start,
    /// Reserved for the key-exchange phase.
    OwnKeyRequired,
    /// Reserved for the key-exchange phase.
    ReqGenerateKey,
    /// Reserved for the key-exchange phase.
    AckGenerateKey,
    /// Reserved for the key-exchange phase.
    KeyShare,
    /// Carries the sender's serialized connection preferences.
    PreferencesShare,
    /// Confirms that both sides have exchanged preferences.
    Ready,
    /// A free-form text message.
    SimpleMessage,
    /// Ends the session.
    End,
}

impl ScpCommand {
    /// The wire code of this command.
    pub open spec fn spec_code(self) -> u16 {
        match self {
            ScpCommand::Start => 0,
            ScpCommand::OwnKeyRequired => 1,
            ScpCommand::ReqGenerateKey => 2,
            ScpCommand::AckGenerateKey => 3,
            ScpCommand::KeyShare => 4,
            ScpCommand::PreferencesShare => 5,
            ScpCommand::Ready => 6,
            ScpCommand::SimpleMessage => 7,
            ScpCommand::End => 8,
        }
    }

    /// The wire code of this command.
    pub fn code(&self) -> (r: u16)
        ensures
            r == self.spec_code(),
    {
        match self {
            ScpCommand::Start => 0,
            ScpCommand::OwnKeyRequired => 1,
            ScpCommand::ReqGenerateKey => 2,
            ScpCommand::AckGenerateKey => 3,
            ScpCommand::KeyShare => 4,
            ScpCommand::PreferencesShare => 5,
            ScpCommand::Ready => 6,
            ScpCommand::SimpleMessage => 7,
            ScpCommand::End => 8,
        }
    }

    /// The command a wire code stands for, if any.
    pub open spec fn spec_from_code(code: u16) -> Option<ScpCommand> {
        if code == 0 {
            Some(ScpCommand::Start)
        } else if code == 1 {
            Some(ScpCommand::OwnKeyRequired)
        } else if code == 2 {
            Some(ScpCommand::ReqGenerateKey)
        } else if code == 3 {
            Some(ScpCommand::AckGenerateKey)
        } else if code == 4 {
            Some(ScpCommand::KeyShare)
        } else if code == 5 {
            Some(ScpCommand::PreferencesShare)
        } else if code == 6 {
            Some(ScpCommand::Ready)
        } else if code == 7 {
            Some(ScpCommand::SimpleMessage)
        } else if code == 8 {
            Some(ScpCommand::End)
        } else {
            None
        }
    }

    /// The command a wire code stands for, if any.
    pub fn from_code(code: u16) -> (r: Option<ScpCommand>)
        ensures
            r == Self::spec_from_code(code),
    {
        if code == 0 {
            Some(ScpCommand::Start)
        } else if code == 1 {
            Some(ScpCommand::OwnKeyRequired)
        } else if code == 2 {
            Some(ScpCommand::ReqGenerateKey)
        } else if code == 3 {
            Some(ScpCommand::AckGenerateKey)
        } else if code == 4 {
            Some(ScpCommand::KeyShare)
        } else if code == 5 {
            Some(ScpCommand::PreferencesShare)
        } else if code == 6 {
            Some(ScpCommand::Ready)
        } else if code == 7 {
            Some(ScpCommand::SimpleMessage)
        } else if code == 8 {
            Some(ScpCommand::End)
        } else {
            None
        }
    }

    /// Whether a message with this command must carry a non-empty body.
    pub open spec fn spec_requires_body(self) -> bool {
        match self {
            ScpCommand::Start => true,
            ScpCommand::OwnKeyRequired => false,
            ScpCommand::ReqGenerateKey => false,
            ScpCommand::AckGenerateKey => false,
            ScpCommand::KeyShare => true,
            ScpCommand::PreferencesShare => true,
            ScpCommand::Ready => false,
            ScpCommand::SimpleMessage => true,
            ScpCommand::End => false,
        }
    }

    /// Whether a message with this command must carry a non-empty body.
    pub fn requires_body(&self) -> (r: bool)
        ensures
            r == self.spec_requires_body(),
    {
        match self {
            ScpCommand::Start => true,
            ScpCommand::OwnKeyRequired => false,
            ScpCommand::ReqGenerateKey => false,
            ScpCommand::AckGenerateKey => false,
            ScpCommand::KeyShare => true,
            ScpCommand::PreferencesShare => true,
            ScpCommand::Ready => false,
            ScpCommand::SimpleMessage => true,
            ScpCommand::End => false,
        }
    }

    /// A wire code decodes back to the command it encodes.
    pub proof fn lemma_code_round_trip(c: ScpCommand)
        ensures
            Self::spec_from_code(c.spec_code()) == Some(c),
    {
    }
}

/// The ways parsing a byte string as an SCP message can fail.
#[derive(Clone, Copy, Debug, PartialEq, Eq, Structural)]
pub enum SCPParseError {
    /// The header is missing, the final framing is malformed, or the
    /// command code is out of range.
    BadStructure,
    /// The command requires a body but the body region is empty.
    MissingBody,
    /// Fewer than two bytes stand between the header and the trailer.
    MissingCommand,
    /// The trailer is missing.
    MissingEnd,
}

/// One SCP control message: a command and its body.
#[derive(Clone, Debug)]
pub struct ScpMessage {
    /// The message payload.
    pub body: Vec<u8>,
    /// The message command.
    pub command: ScpCommand,
}

impl ScpMessage {
    /// Whether a command and body may form a message: a command that
    /// requires a body must have a non-empty one.
    pub open spec fn spec_valid(command: ScpCommand, body: Seq<u8>) -> bool {
        command.spec_requires_body() ==> body.len() > 0
    }

    /// The wire form of a message.
    pub open spec fn spec_serialize(command: ScpCommand, body: Seq<u8>) -> Seq<u8> {
        spec_scp_header() + spec_u16_to_le_bytes(command.spec_code()) + body + seq![10u8]
            + spec_scp_end()
    }

    /// What a byte string parses to: a command and body, or the first
    /// framing error found.
    pub open spec fn spec_parse(raw: Seq<u8>) -> Result<(ScpCommand, Seq<u8>), SCPParseError> {
        if !(raw.len() >= 12 && raw.subrange(0, 12) == spec_scp_header()) {
            Err(SCPParseError::BadStructure)
        } else if !(raw.len() >= 23 && raw.subrange(raw.len() - 11, raw.len() as int)
            == spec_scp_end()) {
            Err(SCPParseError::MissingEnd)
        } else if raw.len() < 25 {
            Err(SCPParseError::MissingCommand)
        } else if raw.len() < 26 || raw[raw.len() - 12] != 10u8 {
            Err(SCPParseError::BadStructure)
        } else {
            match ScpCommand::spec_from_code(spec_u16_from_le_bytes(raw.subrange(12, 14))) {
                None => Err(SCPParseError::BadStructure),
                Some(c) => {
                    if c.spec_requires_body() && raw.len() == 26 {
                        Err(SCPParseError::MissingBody)
                    } else {
                        Ok((c, raw.subrange(14, raw.len() - 12)))
                    }
                },
            }
        }
    }

    /// Builds a message from a command and a body.
    pub fn new(command: ScpCommand, body: &[u8]) -> (r: ScpMessage)
        requires
            Self::spec_valid(command, body@),
        ensures
            r.command == command,
            r.body@ == body@,
    {
        ScpMessage { command, body: vstd::slice::slice_to_vec(body) }
    }

    /// Serializes this message to its wire form.
    pub fn as_bytes(&self) -> (r: Vec<u8>)
        ensures
            r@ == Self::spec_serialize(self.command, self.body@),
    {
        let mut v = scp_header_bytes();
        let mut code = u16_to_le_bytes(self.command.code());
        v.append(&mut code);
        v.extend_from_slice(self.body.as_slice());
        v.push(10);
        let mut end = scp_end_bytes();
        v.append(&mut end);
        assert(v@ =~= Self::spec_serialize(self.command, self.body@));
        v
    }

    /// Parses one wire message.
    pub fn deserialize(raw: &[u8]) -> (r: Result<ScpMessage, SCPParseError>)
        ensures
            match Self::spec_parse(raw@) {
                Ok((c, b)) => r is Ok && r->Ok_0.command == c && r->Ok_0.body@ == b,
                Err(e) => r == Err::<ScpMessage, SCPParseError>(e),
            },
    {
        let n = raw.len();
        let header = scp_header_bytes();
        if n < 12 || !region_eq(raw, 0, &header) {
            return Err(SCPParseError::BadStructure);
        }
        let end = scp_end_bytes();
        if n < 23 || !region_eq(raw, n - 11, &end) {
            assert(n >= 23 ==> raw@.subrange(n - 11, n as int) != spec_scp_end());
            return Err(SCPParseError::MissingEnd);
        }
        if n < 25 {
            return Err(SCPParseError::MissingCommand);
        }
        if n < 26 || *vstd::slice::slice_index_get(raw, n - 12) != 10u8 {
            return Err(SCPParseError::BadStructure);
        }
        let code_slice = vstd::slice::slice_subrange(raw, 12, 14);
        let code = u16_from_le_bytes(code_slice);
        match ScpCommand::from_code(code) {
            None => Err(SCPParseError::BadStructure),
            Some(c) => {
                if c.requires_body() && n == 26 {
                    Err(SCPParseError::MissingBody)
                } else {
                    let body_slice = vstd::slice::slice_subrange(raw, 14, n - 12);
                    Ok(ScpMessage { command: c, body: vstd::slice::slice_to_vec(body_slice) })
                }
            },
        }
    }
}

/// Codec round trip: any valid message serializes to bytes that parse back
/// to the same command and body.
pub proof fn lemma_codec_round_trip(c: ScpCommand, b: Seq<u8>)
    requires
        ScpMessage::spec_valid(c, b),
    ensures
        ScpMessage::spec_parse(ScpMessage::spec_serialize(c, b)) == Ok::<_, SCPParseError>((c, b)),
{
    lemma_auto_spec_u16_to_from_le_bytes();
    let s = ScpMessage::spec_serialize(c, b);
    assert(s.len() == 26 + b.len());
    assert(s.subrange(0, 12) =~= spec_scp_header());
    assert(s.subrange(s.len() - 11, s.len() as int) =~= spec_scp_end());
    assert(s[s.len() - 12] == 10u8);
    assert(s.subrange(12, 14) =~= spec_u16_to_le_bytes(c.spec_code()));
    ScpCommand::lemma_code_round_trip(c);
    assert(s.subrange(14, s.len() - 12) =~= b);
}

} // verus!
