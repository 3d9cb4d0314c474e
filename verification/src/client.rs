//! The types a host exchanges with the SCP worker: actions in, events
//! out, and the session configuration a successful negotiation produces.

use vstd::prelude::*;
use crate::prefs::{AudioEncoding, Preferences, VideoEncoding};

verus! {

/// An IPv4 address as four octets.
#[derive(Clone, Copy, Debug, PartialEq, Eq, Structural)]
pub struct IpV4 {
    /// The first octet.
    pub a: u8,
    /// The second octet.
    pub b: u8,
    /// The third octet.
    pub c: u8,
    /// The fourth octet.
    pub d: u8,
}

impl IpV4 {
    /// The loopback address 127.0.0.1.
    pub fn localhost() -> (r: IpV4)
        ensures
            r == (IpV4 { a: 127u8, b: 0u8, c: 0u8, d: 1u8 }),
    {
        IpV4 { a: 127, b: 0, c: 0, d: 1 }
    }
}

/// A socket address: an IPv4 address and a port.
#[derive(Clone, Copy, Debug, PartialEq, Eq, Structural)]
pub struct SockAddr {
    /// The host address.
    pub ip: IpV4,
    /// The port.
    pub port: u16,
}

/// Errors that may arise when establishing a session fails.
#[derive(Clone, Copy, Debug, PartialEq, Eq, Structural)]
pub enum ScpConnectionError {
    /// The worker did not answer within the caller's timeout.
    NotResponding,
    /// The peer is in a session with someone else.
    Busy,
    /// The peer refused the connection.
    Refused,
    /// The peer requires a password for the connection.
    PasswordRequired,
    /// This endpoint is already in a session.
    AlreadyConnected,
}

/// The negotiated outcome of a successful session setup, enough to
/// configure the stream workers.
#[derive(Debug)]
pub struct SessionConfig {
    /// The key that protects the session, once key exchange exists.
    pub encryption_key: Option<String>,
    /// The method the key is used with; not yet negotiated.
    pub encrytpion_method: Option<bool>,
    /// The peer's address.
    pub ip: IpV4,
    /// The peer's announced preferences: where it listens, what it expects.
    pub stream_config: Preferences,
}

/// Events the SCP worker publishes to the facade.
#[derive(Debug)]
pub enum ConnectionEvent {
    /// A session is established; streams may start.
    ConnectionEstablished(SessionConfig),
    /// The attempted connection failed.
    ConnectionFailed(ScpConnectionError),
    /// A peer is dialing in and waits for confirmation.
    ConnectionIncoming(IpV4),
    /// The session ended; streams should be torn down.
    ConnectionEnd,
}

/// Settings used when attempting to connect to another endpoint.
#[derive(Debug)]
pub struct ConnectionSetings {
    /// Where to dial.
    pub destination: SockAddr,
    /// The password the peer asks for, when it asks for one.
    pub password: Option<String>,
}

/// Actions a facade publishes to the SCP worker.
#[derive(Debug)]
pub enum ConnectionAction {
    /// Attempt a connection with the given settings.
    AttemptConnection(ConnectionSetings),
    /// Refuse the incoming connection, if any.
    RefuseConnection,
    /// Accept the incoming connection, if any.
    AcceptConnection,
    /// Reserved: set a session password.
    SetPassword(String),
    /// Reserved: clear the session password.
    UnsetPassword,
    /// End the current session.
    EndConnection,
    /// Stop the worker.
    Terminate,
}

/// What a facade call returns for the event found in the slot when its
/// wait ends: a session for `ConnectionEstablished`, the reported error
/// for `ConnectionFailed`, and `NotResponding` for anything else.
pub fn event_to_session_result(event: Option<ConnectionEvent>) -> (r: Result<
    SessionConfig,
    ScpConnectionError,
>)
    ensures
        match event {
            Some(ConnectionEvent::ConnectionEstablished(s)) => r == Ok::<
                SessionConfig,
                ScpConnectionError,
            >(s),
            Some(ConnectionEvent::ConnectionFailed(e)) => r == Err::<
                SessionConfig,
                ScpConnectionError,
            >(e),
            _ => r == Err::<SessionConfig, ScpConnectionError>(ScpConnectionError::NotResponding),
        },
{
    match event {
        Some(ConnectionEvent::ConnectionEstablished(s)) => Ok(s),
        Some(ConnectionEvent::ConnectionFailed(e)) => Err(e),
        _ => Err(ScpConnectionError::NotResponding),
    }
}

/// A builder that collects preferences for a client.
pub struct ScpClientBuilder {
    /// The preferences gathered so far.
    pub preferences: Preferences,
}

impl ScpClientBuilder {
    /// A builder holding the default preferences.
    pub fn builder() -> (r: Self)
        ensures
            r.preferences == Preferences::spec_default(),
    {
        ScpClientBuilder { preferences: Preferences::default() }
    }

    /// Sets the UDP port this endpoint will listen on for video.
    pub fn video_port(self, port: u16) -> (r: Self)
        ensures
            r.preferences == (Preferences { port_in_video: port, ..self.preferences }),
    {
        ScpClientBuilder { preferences: Preferences { port_in_video: port, ..self.preferences } }
    }

    /// Sets the UDP port this endpoint will listen on for audio.
    pub fn audio_port(self, port: u16) -> (r: Self)
        ensures
            r.preferences == (Preferences { port_in_audio: port, ..self.preferences }),
    {
        ScpClientBuilder { preferences: Preferences { port_in_audio: port, ..self.preferences } }
    }

    /// Sets the video encoding this endpoint expects.
    pub fn video_encoding(self, encoding: VideoEncoding) -> (r: Self)
        ensures
            r.preferences == (Preferences { video_encoding: encoding, ..self.preferences }),
    {
        ScpClientBuilder {
            preferences: Preferences { video_encoding: encoding, ..self.preferences },
        }
    }

    /// Sets the audio encoding this endpoint expects.
    pub fn audio_encoding(self, encoding: AudioEncoding) -> (r: Self)
        ensures
            r.preferences == (Preferences { audio_encoding: encoding, ..self.preferences }),
    {
        ScpClientBuilder {
            preferences: Preferences { audio_encoding: encoding, ..self.preferences },
        }
    }

    /// Sets the TCP port the SCP listener will bind to; 0 lets the
    /// operating system pick.
    pub fn port_scp(self, port: u16) -> (r: Self)
        ensures
            r.preferences == (Preferences { port_scp: port, ..self.preferences }),
    {
        ScpClientBuilder { preferences: Preferences { port_scp: port, ..self.preferences } }
    }
}

} // verus!
