//! The SCP session state machine.
//!
//! One worker owns the TCP listener and runs the protocol; this module is
//! its decision core. Every handler takes the current state and one input
//! — an action from the facade, one parsed wire message, or the outcome
//! of a dial — and returns the effects the worker must perform: messages
//! to send, events to publish, and whether to exit. The socket work
//! itself stays outside.

use vstd::prelude::*;
use vstd::bytes::{spec_u16_from_le_bytes, spec_u16_to_le_bytes, u16_from_le_bytes, u16_to_le_bytes};
use crate::client::{
    ConnectionAction, ConnectionEvent, ConnectionSetings, ScpConnectionError, SessionConfig,
    SockAddr, IpV4,
};
use crate::codec::{ScpCommand, ScpMessage};
use crate::prefs::{spec_prefs_bytes, spec_prefs_parse, parse_preferences, serialize_preferences,
    Preferences};

verus! {

/// The connection state of the SCP worker. In a clean session it runs
/// from top to bottom.
#[derive(Clone, Copy, Debug, PartialEq, Eq, Structural)]
pub enum ConnectionState {
    /// Not connected and not negotiating.
    Free,
    /// A handshake has been opened from either side.
    Handshake,
    /// Our preferences have been sent to the peer.
    ConfigShared,
    /// Both sides hold each other's preferences; awaiting `Ready`.
    Awaiting,
    /// The session is established.
    Connected,
}

/// One thing the worker must do after a handler returns.
#[derive(Debug)]
pub enum Effect {
    /// Dial `dest` with a bounded timeout and send `msg` (a `Start`);
    /// report the outcome back through `on_dial_result`.
    DialAndStart {
        /// The peer to dial.
        dest: SockAddr,
        /// The `Start` message to send.
        msg: ScpMessage,
    },
    /// Dial `dest` and send `msg`, best effort: failures are ignored.
    Send {
        /// The peer to dial.
        dest: SockAddr,
        /// The message to send.
        msg: ScpMessage,
    },
    /// Answer a single `End` frame on the connection the inbound message
    /// arrived on, then close it.
    ReplyEnd,
    /// Publish an event to the facade and wake its waiters.
    Emit {
        /// The event to publish.
        event: ConnectionEvent,
    },
    /// Clear the event slot and wake waiters; used at shutdown.
    ClearEvent,
    /// Leave the worker loop.
    Exit,
}

/// The ghost form of an effect: message contents instead of built
/// messages, so laws can be stated and proved over handler outcomes.
pub enum EffectModel {
    /// Dial and send `Start` with this body; report the outcome back.
    DialAndStart {
        /// The peer to dial.
        dest: SockAddr,
        /// The body of the `Start` message.
        body: Seq<u8>,
    },
    /// Dial and send a message, best effort.
    Send {
        /// The peer to dial.
        dest: SockAddr,
        /// The command sent.
        command: ScpCommand,
        /// The body sent.
        body: Seq<u8>,
    },
    /// Answer a single `End` frame on the inbound connection.
    ReplyEnd,
    /// Publish an event to the facade.
    Emit {
        /// The event published.
        event: ConnectionEvent,
    },
    /// Clear the event slot.
    ClearEvent,
    /// Leave the worker loop.
    Exit,
}

/// The ghost form of one effect.
pub open spec fn spec_effect_model(e: Effect) -> EffectModel {
    match e {
        Effect::DialAndStart { dest, msg } => EffectModel::DialAndStart { dest, body: msg.body@ },
        Effect::Send { dest, msg } => EffectModel::Send {
            dest,
            command: msg.command,
            body: msg.body@,
        },
        Effect::ReplyEnd => EffectModel::ReplyEnd,
        Effect::Emit { event } => EffectModel::Emit { event },
        Effect::ClearEvent => EffectModel::ClearEvent,
        Effect::Exit => EffectModel::Exit,
    }
}

/// The ghost form of a handler's effects.
pub open spec fn spec_effects_model(es: Seq<Effect>) -> Seq<EffectModel> {
    es.map_values(|e: Effect| spec_effect_model(e))
}

/// The state machine that manages one session over the SCP protocol.
#[derive(Debug)]
pub struct ScpListener {
    /// The peer of the current negotiation or session, if any.
    pub communicating_with: Option<SockAddr>,
    /// The peer's preferences, once it has shared them.
    pub got_preferences: Option<Preferences>,
    /// Where in the session protocol this endpoint stands.
    pub state: ConnectionState,
    /// This endpoint's own preferences, announced to peers.
    pub preferences: Preferences,
}

impl ScpListener {
    /// A fresh worker core: free, alone, with its preferences corrected
    /// to the port the listener actually bound.
    pub fn new(preferences: Preferences, bound_port: u16) -> (r: Self)
        ensures
            r == (ScpListener {
                communicating_with: None,
                got_preferences: None,
                state: ConnectionState::Free,
                preferences: Preferences { port_scp: bound_port, ..preferences },
            }),
    {
        ScpListener {
            communicating_with: None,
            got_preferences: None,
            state: ConnectionState::Free,
            preferences: Preferences { port_scp: bound_port, ..preferences },
        }
    }

    /// Whether an inbound connection from `from_ip` must be answered with
    /// a single `End` frame and closed: the worker is busy with a session
    /// or negotiation and the caller is not its peer.
    pub open spec fn spec_refuse_inbound(self, from_ip: IpV4) -> bool {
        self.state != ConnectionState::Free && match self.communicating_with {
            Some(peer) => peer.ip != from_ip,
            None => false,
        }
    }

    /// Decides whether an inbound connection is a third party to refuse.
    pub fn should_refuse_inbound(&self, from_ip: IpV4) -> (r: bool)
        ensures
            r == self.spec_refuse_inbound(from_ip),
    {
        match self.communicating_with {
            Some(peer) => {
                !matches!(self.state, ConnectionState::Free) && !(peer.ip.a == from_ip.a
                    && peer.ip.b == from_ip.b && peer.ip.c == from_ip.c && peer.ip.d == from_ip.d)
            },
            None => false,
        }
    }
}

/// Ending the current session: send `End` to the peer if one is known,
/// publish `ConnectionEnd`, clear the peer and its preferences, return
/// to `Free`.
pub open spec fn spec_end_connection(pre: ScpListener) -> (ScpListener, Seq<EffectModel>) {
    let post = ScpListener {
        communicating_with: None,
        got_preferences: None,
        state: ConnectionState::Free,
        preferences: pre.preferences,
    };
    let emit = EffectModel::Emit { event: ConnectionEvent::ConnectionEnd };
    match pre.communicating_with {
        Some(peer) => (
            post,
            seq![
                EffectModel::Send { dest: peer, command: ScpCommand::End, body: Seq::empty() },
                emit,
            ],
        ),
        None => (post, seq![emit]),
    }
}

/// Sharing our preferences: send them to the peer and move to
/// `ConfigShared`. Without a peer, nothing happens.
pub open spec fn spec_share_config(pre: ScpListener) -> (ScpListener, Seq<EffectModel>) {
    match pre.communicating_with {
        Some(peer) => (
            ScpListener { state: ConnectionState::ConfigShared, ..pre },
            seq![
                EffectModel::Send {
                    dest: peer,
                    command: ScpCommand::PreferencesShare,
                    body: spec_prefs_bytes(pre.preferences),
                },
            ],
        ),
        None => (pre, Seq::empty()),
    }
}

/// Finalizing: with a peer and its preferences in hand, the session is
/// established and the facade learns its configuration. Otherwise,
/// nothing happens.
pub open spec fn spec_finalize(pre: ScpListener) -> (ScpListener, Seq<EffectModel>) {
    match (pre.communicating_with, pre.got_preferences) {
        (Some(peer), Some(p)) => (
            ScpListener { state: ConnectionState::Connected, ..pre },
            seq![
                EffectModel::Emit {
                    event: ConnectionEvent::ConnectionEstablished(
                        SessionConfig {
                            encryption_key: None,
                            encrytpion_method: None,
                            ip: peer.ip,
                            stream_config: p,
                        },
                    ),
                },
            ],
        ),
        _ => (pre, Seq::empty()),
    }
}

/// The peer ended the session: publish `ConnectionEnd`, clear the peer
/// and its preferences, return to `Free`.
pub open spec fn spec_notify_end(pre: ScpListener) -> (ScpListener, Seq<EffectModel>) {
    (
        ScpListener {
            communicating_with: None,
            got_preferences: None,
            state: ConnectionState::Free,
            preferences: pre.preferences,
        },
        seq![EffectModel::Emit { event: ConnectionEvent::ConnectionEnd }],
    )
}

/// An inbound `Start`: only in `Free`, and only with a body that carries
/// the peer's listen port, the sender becomes the peer and our
/// preferences go out. Anything else is consumed without effect.
pub open spec fn spec_init_connection(pre: ScpListener, body: Seq<u8>, from: SockAddr) -> (
    ScpListener,
    Seq<EffectModel>,
) {
    if pre.state != ConnectionState::Free {
        (pre, Seq::empty())
    } else if body.len() >= 2 {
        let port = spec_u16_from_le_bytes(body.subrange(0, 2));
        let peer = SockAddr { ip: from.ip, port };
        spec_share_config(ScpListener { communicating_with: Some(peer), ..pre })
    } else {
        (pre, Seq::empty())
    }
}

/// An inbound `PreferencesShare`. A body that parses is stored, and the
/// state decides the reply: in `Handshake` our preferences go out, in
/// `ConfigShared` a `Ready` goes out and we await the peer's, in
/// `Awaiting` the session finalizes. A body that does not parse is
/// answered with `End` to the peer, state unchanged.
pub open spec fn spec_on_preferences_share(pre: ScpListener, body: Seq<u8>) -> (
    ScpListener,
    Seq<EffectModel>,
) {
    match spec_prefs_parse(body) {
        Some(p) => {
            let st = ScpListener { got_preferences: Some(p), ..pre };
            match pre.state {
                ConnectionState::Handshake => spec_share_config(st),
                ConnectionState::ConfigShared => match st.communicating_with {
                    Some(peer) => (
                        ScpListener { state: ConnectionState::Awaiting, ..st },
                        seq![
                            EffectModel::Send {
                                dest: peer,
                                command: ScpCommand::Ready,
                                body: Seq::empty(),
                            },
                        ],
                    ),
                    None => (st, Seq::empty()),
                },
                ConnectionState::Awaiting => spec_finalize(st),
                _ => (st, Seq::empty()),
            }
        },
        None => match pre.communicating_with {
            Some(peer) => (
                pre,
                seq![
                    EffectModel::Send { dest: peer, command: ScpCommand::End, body: Seq::empty() },
                ],
            ),
            None => (pre, Seq::empty()),
        },
    }
}

/// One inbound wire message, dispatched on its command. `Ready`
/// finalizes only when both the peer and its preferences are known; the
/// key-exchange commands and `SimpleMessage` are parsed but answered
/// with `End` until key exchange is specified.
pub open spec fn spec_handle_message(
    pre: ScpListener,
    command: ScpCommand,
    body: Seq<u8>,
    from: SockAddr,
) -> (ScpListener, Seq<EffectModel>) {
    match command {
        ScpCommand::Start => spec_init_connection(pre, body, from),
        ScpCommand::PreferencesShare => spec_on_preferences_share(pre, body),
        ScpCommand::Ready => {
            if pre.communicating_with is Some && pre.got_preferences is Some {
                spec_finalize(pre)
            } else {
                (pre, Seq::empty())
            }
        },
        ScpCommand::End => spec_notify_end(pre),
        _ => (pre, seq![EffectModel::ReplyEnd]),
    }
}

/// The outcome of the dial that `DialAndStart` asked for: on success the
/// destination becomes the peer and the handshake is open; on failure
/// the facade learns `NotResponding` and nothing changes.
pub open spec fn spec_on_dial_result(pre: ScpListener, dest: SockAddr, ok: bool) -> (
    ScpListener,
    Seq<EffectModel>,
) {
    if ok {
        (
            ScpListener {
                communicating_with: Some(dest),
                state: ConnectionState::Handshake,
                ..pre
            },
            Seq::empty(),
        )
    } else {
        (
            pre,
            seq![
                EffectModel::Emit {
                    event: ConnectionEvent::ConnectionFailed(ScpConnectionError::NotResponding),
                },
            ],
        )
    }
}

/// One action from the facade. Attempting while `Connected` fails with
/// `AlreadyConnected` and touches nothing else; otherwise the worker is
/// told to dial and send `Start` with our own SCP listen port.
/// `AcceptConnection` shares our preferences and finalizes if the peer's
/// have already arrived. The password actions are reserved.
pub open spec fn spec_handle_action(pre: ScpListener, action: ConnectionAction) -> (
    ScpListener,
    Seq<EffectModel>,
) {
    match action {
        ConnectionAction::AttemptConnection(settings) => {
            if pre.state == ConnectionState::Connected {
                (
                    pre,
                    seq![
                        EffectModel::Emit {
                            event: ConnectionEvent::ConnectionFailed(
                                ScpConnectionError::AlreadyConnected,
                            ),
                        },
                    ],
                )
            } else {
                (
                    pre,
                    seq![
                        EffectModel::DialAndStart {
                            dest: settings.destination,
                            body: spec_u16_to_le_bytes(pre.preferences.port_scp),
                        },
                    ],
                )
            }
        },
        ConnectionAction::RefuseConnection => spec_end_connection(pre),
        ConnectionAction::EndConnection => spec_end_connection(pre),
        ConnectionAction::AcceptConnection => {
            match pre.communicating_with {
                Some(_) => {
                    let (s1, e1) = spec_share_config(pre);
                    if pre.got_preferences is Some {
                        let (s2, e2) = spec_finalize(s1);
                        (s2, e1 + e2)
                    } else {
                        (s1, e1)
                    }
                },
                None => (pre, Seq::empty()),
            }
        },
        ConnectionAction::SetPassword(_) => (pre, Seq::empty()),
        ConnectionAction::UnsetPassword => (pre, Seq::empty()),
        ConnectionAction::Terminate => {
            let (s1, e1) = spec_end_connection(pre);
            (s1, e1 + seq![EffectModel::ClearEvent, EffectModel::Exit])
        },
    }
}

/// Busy rejection: while this endpoint is negotiating or connected to a
/// peer, an inbound connection from any other address is refused, and
/// refusal inspects the state without changing it.
pub proof fn lemma_busy_rejection(l: ScpListener, peer: SockAddr, from_ip: IpV4)
    requires
        l.state == ConnectionState::Connected,
        l.communicating_with == Some(peer),
        peer.ip != from_ip,
    ensures
        l.spec_refuse_inbound(from_ip),
{
}

/// Already-connected refusal: a connection attempt made while a session
/// is established fails with `AlreadyConnected`, publishes nothing else,
/// sends nothing on the network, and leaves the state untouched.
pub proof fn lemma_already_connected(l: ScpListener, action: ConnectionAction)
    requires
        l.state == ConnectionState::Connected,
        action matches ConnectionAction::AttemptConnection(_),
    ensures
        spec_handle_action(l, action).0 == l,
        spec_handle_action(l, action).1 =~= seq![
            EffectModel::Emit {
                event: ConnectionEvent::ConnectionFailed(ScpConnectionError::AlreadyConnected),
            },
        ],
{
}

/// State-machine symmetry: two free endpoints A and B, where A dials B
/// and B accepts, both reach `Connected`, and each one's facade learns a
/// session configuration carrying the other's address and preferences.
///
/// The trace follows the wire: A is told to dial and the dial succeeds;
/// B receives A's `Start`; A receives B's preferences; B receives A's
/// preferences and answers `Ready`; A receives `Ready` and finalizes;
/// B's user accepts, which finalizes B.
pub proof fn lemma_session_symmetry(
    prefs_a: Preferences,
    prefs_b: Preferences,
    port_a: u16,
    port_b: u16,
    ip_a: IpV4,
    ip_b: IpV4,
    settings: ConnectionSetings,
    from_a: SockAddr,
    from_b: SockAddr,
)
    requires
        settings.destination == (SockAddr { ip: ip_b, port: port_b }),
        from_a.ip == ip_a,
        from_b.ip == ip_b,
    ensures
        ({
            let a0 = ScpListener {
                communicating_with: None,
                got_preferences: None,
                state: ConnectionState::Free,
                preferences: Preferences { port_scp: port_a, ..prefs_a },
            };
            let b0 = ScpListener {
                communicating_with: None,
                got_preferences: None,
                state: ConnectionState::Free,
                preferences: Preferences { port_scp: port_b, ..prefs_b },
            };
            let start_body = spec_u16_to_le_bytes(port_a);
            let a1 = spec_handle_action(a0, ConnectionAction::AttemptConnection(settings)).0;
            let a2 = spec_on_dial_result(a1, settings.destination, true).0;
            let b1 = spec_handle_message(b0, ScpCommand::Start, start_body, from_a).0;
            let a3 = spec_handle_message(
                a2,
                ScpCommand::PreferencesShare,
                spec_prefs_bytes(b0.preferences),
                from_b,
            ).0;
            let b2 = spec_handle_message(
                b1,
                ScpCommand::PreferencesShare,
                spec_prefs_bytes(a0.preferences),
                from_a,
            ).0;
            let a4 = spec_handle_message(a3, ScpCommand::Ready, Seq::empty(), from_b).0;
            let ea = spec_handle_message(a3, ScpCommand::Ready, Seq::empty(), from_b).1;
            let b3 = spec_handle_action(b2, ConnectionAction::AcceptConnection).0;
            let eb = spec_handle_action(b2, ConnectionAction::AcceptConnection).1;
            &&& spec_handle_action(a0, ConnectionAction::AttemptConnection(settings)).1 =~= seq![
                EffectModel::DialAndStart { dest: settings.destination, body: start_body },
            ]
            &&& a4.state == ConnectionState::Connected
            &&& b3.state == ConnectionState::Connected
            &&& ea =~= seq![
                EffectModel::Emit {
                    event: ConnectionEvent::ConnectionEstablished(
                        SessionConfig {
                            encryption_key: None,
                            encrytpion_method: None,
                            ip: ip_b,
                            stream_config: b0.preferences,
                        },
                    ),
                },
            ]
            &&& eb.len() == 2
            &&& eb[1] == (EffectModel::Emit {
                event: ConnectionEvent::ConnectionEstablished(
                    SessionConfig {
                        encryption_key: None,
                        encrytpion_method: None,
                        ip: ip_a,
                        stream_config: a0.preferences,
                    },
                ),
            })
        }),
{
    vstd::bytes::lemma_auto_spec_u16_to_from_le_bytes();
    crate::prefs::lemma_prefs_round_trip(Preferences { port_scp: port_a, ..prefs_a });
    crate::prefs::lemma_prefs_round_trip(Preferences { port_scp: port_b, ..prefs_b });
    let start_body = spec_u16_to_le_bytes(port_a);
    assert(start_body.len() == 2);
    assert(start_body.subrange(0, 2) =~= start_body);
    assert(spec_u16_from_le_bytes(start_body.subrange(0, 2)) == port_a);
}

impl ScpListener {
    /// Ends the current session: `End` to the peer if one is known, a
    /// `ConnectionEnd` event, peer and preferences cleared, back to `Free`.
    pub fn end_connection(&mut self) -> (effects: Vec<Effect>)
        ensures
            *final(self) == spec_end_connection(*old(self)).0,
            spec_effects_model(effects@) == spec_end_connection(*old(self)).1,
    {
        let mut effects: Vec<Effect> = Vec::new();
        match self.communicating_with {
            Some(peer) => {
                let msg = ScpMessage { command: ScpCommand::End, body: Vec::new() };
                effects.push(Effect::Send { dest: peer, msg });
            },
            None => {},
        }
        effects.push(Effect::Emit { event: ConnectionEvent::ConnectionEnd });
        self.communicating_with = None;
        self.got_preferences = None;
        self.state = ConnectionState::Free;
        assert(spec_effects_model(effects@) =~= spec_end_connection(*old(self)).1);
        effects
    }

    /// Sends our preferences to the peer and moves to `ConfigShared`;
    /// without a peer, does nothing.
    pub fn share_config(&mut self) -> (effects: Vec<Effect>)
        ensures
            *final(self) == spec_share_config(*old(self)).0,
            spec_effects_model(effects@) == spec_share_config(*old(self)).1,
    {
        let mut effects: Vec<Effect> = Vec::new();
        match self.communicating_with {
            Some(peer) => {
                let body = serialize_preferences(&self.preferences);
                let msg = ScpMessage { command: ScpCommand::PreferencesShare, body };
                effects.push(Effect::Send { dest: peer, msg });
                self.state = ConnectionState::ConfigShared;
            },
            None => {},
        }
        assert(spec_effects_model(effects@) =~= spec_share_config(*old(self)).1);
        effects
    }

    /// Establishes the session once the peer and its preferences are both
    /// known, and tells the facade its configuration; otherwise does
    /// nothing.
    pub fn finalize_connection(&mut self) -> (effects: Vec<Effect>)
        ensures
            *final(self) == spec_finalize(*old(self)).0,
            spec_effects_model(effects@) == spec_finalize(*old(self)).1,
    {
        let mut effects: Vec<Effect> = Vec::new();
        match (self.communicating_with, self.got_preferences) {
            (Some(peer), Some(p)) => {
                effects.push(
                    Effect::Emit {
                        event: ConnectionEvent::ConnectionEstablished(
                            SessionConfig {
                                encryption_key: None,
                                encrytpion_method: None,
                                ip: peer.ip,
                                stream_config: p,
                            },
                        ),
                    },
                );
                self.state = ConnectionState::Connected;
            },
            _ => {},
        }
        assert(spec_effects_model(effects@) =~= spec_finalize(*old(self)).1);
        effects
    }

    /// Handles the peer ending the session.
    pub fn notify_end_connection(&mut self) -> (effects: Vec<Effect>)
        ensures
            *final(self) == spec_notify_end(*old(self)).0,
            spec_effects_model(effects@) == spec_notify_end(*old(self)).1,
    {
        let mut effects: Vec<Effect> = Vec::new();
        effects.push(Effect::Emit { event: ConnectionEvent::ConnectionEnd });
        self.communicating_with = None;
        self.got_preferences = None;
        self.state = ConnectionState::Free;
        assert(spec_effects_model(effects@) =~= spec_notify_end(*old(self)).1);
        effects
    }

    /// Handles an inbound `Start` whose sender wants a session.
    pub fn init_connection(&mut self, msg: &ScpMessage, from: SockAddr) -> (effects: Vec<Effect>)
        ensures
            *final(self) == spec_init_connection(*old(self), msg.body@, from).0,
            spec_effects_model(effects@) == spec_init_connection(*old(self), msg.body@, from).1,
    {
        if !matches!(self.state, ConnectionState::Free) {
            let effects: Vec<Effect> = Vec::new();
            assert(spec_effects_model(effects@) =~= spec_init_connection(
                *old(self),
                msg.body@,
                from,
            ).1);
            return effects;
        }
        if msg.body.len() >= 2 {
            let port_slice = vstd::slice::slice_subrange(msg.body.as_slice(), 0, 2);
            let port = u16_from_le_bytes(port_slice);
            self.communicating_with = Some(SockAddr { ip: from.ip, port });
            self.share_config()
        } else {
            let effects: Vec<Effect> = Vec::new();
            assert(spec_effects_model(effects@) =~= spec_init_connection(
                *old(self),
                msg.body@,
                from,
            ).1);
            effects
        }
    }

    /// Handles an inbound `PreferencesShare`.
    pub fn on_preferences_share(&mut self, msg: &ScpMessage) -> (effects: Vec<Effect>)
        ensures
            *final(self) == spec_on_preferences_share(*old(self), msg.body@).0,
            spec_effects_model(effects@) == spec_on_preferences_share(*old(self), msg.body@).1,
    {
        match parse_preferences(msg.body.as_slice()) {
            Some(p) => {
                self.got_preferences = Some(p);
                match self.state {
                    ConnectionState::Handshake => self.share_config(),
                    ConnectionState::ConfigShared => {
                        let mut effects: Vec<Effect> = Vec::new();
                        match self.communicating_with {
                            Some(peer) => {
                                let ready = ScpMessage {
                                    command: ScpCommand::Ready,
                                    body: Vec::new(),
                                };
                                effects.push(Effect::Send { dest: peer, msg: ready });
                                self.state = ConnectionState::Awaiting;
                            },
                            None => {},
                        }
                        assert(spec_effects_model(effects@) =~= spec_on_preferences_share(
                            *old(self),
                            msg.body@,
                        ).1);
                        effects
                    },
                    ConnectionState::Awaiting => self.finalize_connection(),
                    _ => {
                        let effects: Vec<Effect> = Vec::new();
                        assert(spec_effects_model(effects@) =~= spec_on_preferences_share(
                            *old(self),
                            msg.body@,
                        ).1);
                        effects
                    },
                }
            },
            None => {
                let mut effects: Vec<Effect> = Vec::new();
                match self.communicating_with {
                    Some(peer) => {
                        let end = ScpMessage { command: ScpCommand::End, body: Vec::new() };
                        effects.push(Effect::Send { dest: peer, msg: end });
                    },
                    None => {},
                }
                assert(spec_effects_model(effects@) =~= spec_on_preferences_share(
                    *old(self),
                    msg.body@,
                ).1);
                effects
            },
        }
    }

    /// Dispatches one inbound wire message on its command.
    pub fn handle_scp_message(&mut self, msg: &ScpMessage, from: SockAddr) -> (effects: Vec<
        Effect,
    >)
        ensures
            *final(self) == spec_handle_message(*old(self), msg.command, msg.body@, from).0,
            spec_effects_model(effects@) == spec_handle_message(
                *old(self),
                msg.command,
                msg.body@,
                from,
            ).1,
    {
        match msg.command {
            ScpCommand::Start => self.init_connection(msg, from),
            ScpCommand::PreferencesShare => self.on_preferences_share(msg),
            ScpCommand::Ready => {
                if self.communicating_with.is_some() && self.got_preferences.is_some() {
                    self.finalize_connection()
                } else {
                    let effects: Vec<Effect> = Vec::new();
                    assert(spec_effects_model(effects@) =~= Seq::<EffectModel>::empty());
                    effects
                }
            },
            ScpCommand::End => self.notify_end_connection(),
            _ => {
                let mut effects: Vec<Effect> = Vec::new();
                effects.push(Effect::ReplyEnd);
                assert(spec_effects_model(effects@) =~= seq![EffectModel::ReplyEnd]);
                effects
            },
        }
    }

    /// Handles the raw bytes read from one accepted inbound connection:
    /// bytes that parse as an SCP message are dispatched, and bytes that
    /// do not are dropped silently, leaving the state alone — a parse
    /// error never tears the session down.
    pub fn handle_inbound(&mut self, raw: &[u8], from: SockAddr) -> (effects: Vec<Effect>)
        ensures
            match ScpMessage::spec_parse(raw@) {
                Ok((c, b)) => *final(self) == spec_handle_message(*old(self), c, b, from).0
                    && spec_effects_model(effects@) == spec_handle_message(
                    *old(self),
                    c,
                    b,
                    from,
                ).1,
                Err(_) => *final(self) == *old(self) && effects@.len() == 0,
            },
    {
        match ScpMessage::deserialize(raw) {
            Ok(msg) => self.handle_scp_message(&msg, from),
            Err(_) => Vec::new(),
        }
    }

    /// Takes the outcome of the dial a `DialAndStart` effect asked for.
    pub fn on_dial_result(&mut self, dest: SockAddr, ok: bool) -> (effects: Vec<Effect>)
        ensures
            *final(self) == spec_on_dial_result(*old(self), dest, ok).0,
            spec_effects_model(effects@) == spec_on_dial_result(*old(self), dest, ok).1,
    {
        let mut effects: Vec<Effect> = Vec::new();
        if ok {
            self.communicating_with = Some(dest);
            self.state = ConnectionState::Handshake;
        } else {
            effects.push(
                Effect::Emit {
                    event: ConnectionEvent::ConnectionFailed(ScpConnectionError::NotResponding),
                },
            );
        }
        assert(spec_effects_model(effects@) =~= spec_on_dial_result(*old(self), dest, ok).1);
        effects
    }

    /// Handles one action published by the facade.
    #[verifier::rlimit(50)]
    pub fn handle_action(&mut self, action: &ConnectionAction) -> (effects: Vec<Effect>)
        ensures
            *final(self) == spec_handle_action(*old(self), *action).0,
            spec_effects_model(effects@) == spec_handle_action(*old(self), *action).1,
    {
        match action {
            ConnectionAction::AttemptConnection(settings) => {
                let mut effects: Vec<Effect> = Vec::new();
                if matches!(self.state, ConnectionState::Connected) {
                    effects.push(
                        Effect::Emit {
                            event: ConnectionEvent::ConnectionFailed(
                                ScpConnectionError::AlreadyConnected,
                            ),
                        },
                    );
                } else {
                    let body = u16_to_le_bytes(self.preferences.port_scp);
                    let msg = ScpMessage { command: ScpCommand::Start, body };
                    effects.push(Effect::DialAndStart { dest: settings.destination, msg });
                }
                assert(spec_effects_model(effects@) =~= spec_handle_action(*old(self), *action).1);
                effects
            },
            ConnectionAction::RefuseConnection => self.end_connection(),
            ConnectionAction::EndConnection => self.end_connection(),
            ConnectionAction::AcceptConnection => {
                if self.communicating_with.is_some() {
                    let had_prefs = self.got_preferences.is_some();
                    let mut effects = self.share_config();
                    if had_prefs {
                        let mut more = self.finalize_connection();
                        effects.append(&mut more);
                    }
                    assert(spec_effects_model(effects@) =~= spec_handle_action(
                        *old(self),
                        *action,
                    ).1);
                    effects
                } else {
                    let effects: Vec<Effect> = Vec::new();
                    assert(spec_effects_model(effects@) =~= Seq::<EffectModel>::empty());
                    effects
                }
            },
            ConnectionAction::SetPassword(_) => {
                let effects: Vec<Effect> = Vec::new();
                assert(spec_effects_model(effects@) =~= Seq::<EffectModel>::empty());
                effects
            },
            ConnectionAction::UnsetPassword => {
                let effects: Vec<Effect> = Vec::new();
                assert(spec_effects_model(effects@) =~= Seq::<EffectModel>::empty());
                effects
            },
            ConnectionAction::Terminate => {
                let mut effects = self.end_connection();
                effects.push(Effect::ClearEvent);
                effects.push(Effect::Exit);
                assert(spec_effects_model(effects@) =~= spec_handle_action(*old(self), *action).1);
                effects
            },
        }
    }
}

} // verus!
