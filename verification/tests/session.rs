use eye_spy::client::{
    event_to_session_result, ConnectionAction, ConnectionEvent, ConnectionSetings, IpV4,
    ScpClientBuilder, ScpConnectionError, SockAddr,
};
use eye_spy::codec::{ScpCommand, ScpMessage};
use eye_spy::listener::{ConnectionState, Effect, ScpListener};
use eye_spy::prefs::{AudioEncoding, Preferences, VideoEncoding};

fn localhost() -> IpV4 {
    IpV4 { a: 127, b: 0, c: 0, d: 1 }
}

/// Delivers the sends of one endpoint to the other and returns the
/// events both emitted, walking the full negotiation of Scenario-SCP-1.
#[test]
fn test_two_peers_negotiate_symmetrically() {
    let prefs_a = ScpClientBuilder::builder().audio_port(7001).port_scp(60102).preferences;
    let prefs_b = ScpClientBuilder::builder().audio_port(7001).port_scp(60103).preferences;
    let mut a = ScpListener::new(prefs_a, 60102);
    let mut b = ScpListener::new(prefs_b, 60103);
    let addr_a = SockAddr { ip: localhost(), port: 60102 };
    let addr_b = SockAddr { ip: localhost(), port: 60103 };

    // A requests a chat with B
    let effects = a.handle_action(&ConnectionAction::AttemptConnection(ConnectionSetings {
        destination: addr_b,
        password: None,
    }));
    let start_msg = match &effects[..] {
        [Effect::DialAndStart { dest, msg }] => {
            assert_eq!(*dest, addr_b);
            assert_eq!(msg.command, ScpCommand::Start);
            assert_eq!(msg.body, 60102u16.to_le_bytes().to_vec());
            ScpMessage { command: msg.command, body: msg.body.clone() }
        }
        _ => panic!("expected a dial"),
    };
    let effects = a.on_dial_result(addr_b, true);
    assert!(effects.is_empty());
    assert_eq!(a.state, ConnectionState::Handshake);

    // B receives A's Start from an ephemeral port
    let effects = b.handle_scp_message(&start_msg, SockAddr { ip: localhost(), port: 49152 });
    assert_eq!(b.communicating_with, Some(addr_a));
    assert_eq!(b.state, ConnectionState::ConfigShared);
    let b_prefs_msg = match &effects[..] {
        [Effect::Send { dest, msg }] => {
            assert_eq!(*dest, addr_a);
            assert_eq!(msg.command, ScpCommand::PreferencesShare);
            ScpMessage { command: msg.command, body: msg.body.clone() }
        }
        _ => panic!("expected B to share its preferences"),
    };

    // A receives B's preferences and answers with its own
    let effects = a.handle_scp_message(&b_prefs_msg, SockAddr { ip: localhost(), port: 49153 });
    assert_eq!(a.state, ConnectionState::ConfigShared);
    let a_prefs_msg = match &effects[..] {
        [Effect::Send { dest, msg }] => {
            assert_eq!(*dest, addr_b);
            assert_eq!(msg.command, ScpCommand::PreferencesShare);
            ScpMessage { command: msg.command, body: msg.body.clone() }
        }
        _ => panic!("expected A to share its preferences"),
    };

    // B receives A's preferences and answers Ready
    let effects = b.handle_scp_message(&a_prefs_msg, SockAddr { ip: localhost(), port: 49154 });
    assert_eq!(b.state, ConnectionState::Awaiting);
    let ready_msg = match &effects[..] {
        [Effect::Send { dest, msg }] => {
            assert_eq!(*dest, addr_a);
            assert_eq!(msg.command, ScpCommand::Ready);
            ScpMessage { command: msg.command, body: msg.body.clone() }
        }
        _ => panic!("expected B to send Ready"),
    };

    // A receives Ready and finalizes
    let effects = a.handle_scp_message(&ready_msg, SockAddr { ip: localhost(), port: 49155 });
    assert_eq!(a.state, ConnectionState::Connected);
    let a_config = match &effects[..] {
        [Effect::Emit { event: ConnectionEvent::ConnectionEstablished(s) }] => s,
        _ => panic!("expected A to establish"),
    };
    assert_eq!(a_config.ip, localhost());
    assert_eq!(a_config.stream_config.port_scp, 60103);

    // B's user accepts, which finalizes B
    let effects = b.handle_action(&ConnectionAction::AcceptConnection);
    assert_eq!(b.state, ConnectionState::Connected);
    assert_eq!(effects.len(), 2);
    let b_config = match &effects[1] {
        Effect::Emit { event: ConnectionEvent::ConnectionEstablished(s) } => s,
        _ => panic!("expected B to establish"),
    };
    assert_eq!(b_config.ip, localhost());
    assert_eq!(b_config.stream_config.port_scp, 60102);
}

#[test]
fn test_busy_rejection_of_third_party() {
    let mut a = ScpListener::new(Preferences::default(), 60102);
    let addr_b = SockAddr { ip: IpV4 { a: 192, b: 168, c: 0, d: 2 }, port: 60103 };
    a.on_dial_result(addr_b, true);
    a.got_preferences = Some(Preferences::default());
    let effects = a.handle_scp_message(
        &ScpMessage { command: ScpCommand::Ready, body: Vec::new() },
        addr_b,
    );
    assert_eq!(a.state, ConnectionState::Connected);
    assert_eq!(effects.len(), 1);

    // C dials in from a different address: refused, state untouched
    let ip_c = IpV4 { a: 192, b: 168, c: 0, d: 7 };
    assert!(a.should_refuse_inbound(ip_c));
    assert_eq!(a.state, ConnectionState::Connected);
    // the peer itself is not refused
    assert!(!a.should_refuse_inbound(addr_b.ip));
}

#[test]
fn test_request_chat_while_connected_is_refused() {
    let mut a = ScpListener::new(Preferences::default(), 60102);
    let addr_b = SockAddr { ip: localhost(), port: 60103 };
    a.on_dial_result(addr_b, true);
    a.got_preferences = Some(Preferences::default());
    a.handle_scp_message(&ScpMessage { command: ScpCommand::Ready, body: Vec::new() }, addr_b);
    assert_eq!(a.state, ConnectionState::Connected);

    let effects = a.handle_action(&ConnectionAction::AttemptConnection(ConnectionSetings {
        destination: SockAddr { ip: localhost(), port: 50000 },
        password: None,
    }));
    assert_eq!(a.state, ConnectionState::Connected);
    match &effects[..] {
        [Effect::Emit { event: ConnectionEvent::ConnectionFailed(e) }] => {
            assert_eq!(*e, ScpConnectionError::AlreadyConnected);
        }
        _ => panic!("expected exactly the AlreadyConnected failure"),
    }
}

#[test]
fn test_end_connection_returns_to_free() {
    let mut a = ScpListener::new(Preferences::default(), 60102);
    let addr_b = SockAddr { ip: localhost(), port: 60103 };
    a.on_dial_result(addr_b, true);
    let effects = a.handle_action(&ConnectionAction::EndConnection);
    assert_eq!(a.state, ConnectionState::Free);
    assert_eq!(a.communicating_with, None);
    assert_eq!(a.got_preferences, None);
    assert_eq!(effects.len(), 2);
    match &effects[0] {
        Effect::Send { dest, msg } => {
            assert_eq!(*dest, addr_b);
            assert_eq!(msg.command, ScpCommand::End);
        }
        _ => panic!("expected End to go to the peer"),
    }
    assert!(matches!(
        effects[1],
        Effect::Emit { event: ConnectionEvent::ConnectionEnd }
    ));
}

#[test]
fn test_dial_failure_reports_not_responding() {
    let mut a = ScpListener::new(Preferences::default(), 60102);
    let addr_b = SockAddr { ip: localhost(), port: 60103 };
    let effects = a.on_dial_result(addr_b, false);
    assert_eq!(a.state, ConnectionState::Free);
    match &effects[..] {
        [Effect::Emit { event: ConnectionEvent::ConnectionFailed(e) }] => {
            assert_eq!(*e, ScpConnectionError::NotResponding);
        }
        _ => panic!("expected the NotResponding failure"),
    }
}

#[test]
fn test_key_exchange_commands_answered_with_end() {
    let mut a = ScpListener::new(Preferences::default(), 60102);
    let effects = a.handle_scp_message(
        &ScpMessage { command: ScpCommand::KeyShare, body: b"key".to_vec() },
        SockAddr { ip: localhost(), port: 50000 },
    );
    assert_eq!(a.state, ConnectionState::Free);
    assert!(matches!(&effects[..], [Effect::ReplyEnd]));
}

#[test]
fn test_terminate_exits() {
    let mut a = ScpListener::new(Preferences::default(), 60102);
    let effects = a.handle_action(&ConnectionAction::Terminate);
    assert!(matches!(effects.last(), Some(Effect::Exit)));
}

#[test]
fn test_event_to_session_result_variants() {
    let established = ConnectionEvent::ConnectionEstablished(eye_spy::client::SessionConfig {
        encryption_key: None,
        encrytpion_method: None,
        ip: localhost(),
        stream_config: Preferences::default(),
    });
    assert!(event_to_session_result(Some(established)).is_ok());
    let failed = ConnectionEvent::ConnectionFailed(ScpConnectionError::Busy);
    assert_eq!(
        event_to_session_result(Some(failed)).unwrap_err(),
        ScpConnectionError::Busy
    );
    assert_eq!(
        event_to_session_result(Some(ConnectionEvent::ConnectionEnd)).unwrap_err(),
        ScpConnectionError::NotResponding
    );
    assert_eq!(
        event_to_session_result(None).unwrap_err(),
        ScpConnectionError::NotResponding
    );
}

#[test]
fn test_builder_collects_preferences() {
    let b = ScpClientBuilder::builder()
        .video_port(7100)
        .audio_port(7101)
        .video_encoding(VideoEncoding::H264)
        .audio_encoding(AudioEncoding::NoIdea)
        .port_scp(60102);
    assert_eq!(b.preferences.port_in_video, 7100);
    assert_eq!(b.preferences.port_in_audio, 7101);
    assert_eq!(b.preferences.port_scp, 60102);
}

#[test]
fn test_unparseable_inbound_bytes_are_dropped() {
    let mut a = ScpListener::new(Preferences::default(), 60102);
    let addr_b = SockAddr { ip: localhost(), port: 60103 };
    a.on_dial_result(addr_b, true);
    let before_state = a.state;
    let effects = a.handle_inbound(b"line noise, not an SCP message", addr_b);
    assert!(effects.is_empty());
    assert_eq!(a.state, before_state);
    assert_eq!(a.communicating_with, Some(addr_b));

    // well-formed bytes take the normal path
    let end = ScpMessage { command: ScpCommand::End, body: Vec::new() };
    let effects = a.handle_inbound(&end.as_bytes(), addr_b);
    assert_eq!(a.state, ConnectionState::Free);
    assert!(matches!(
        &effects[..],
        [Effect::Emit { event: ConnectionEvent::ConnectionEnd }]
    ));
}
