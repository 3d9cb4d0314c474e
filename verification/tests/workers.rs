use eye_spy::incoming::{IncomingStreamState, CONNECTION_TIMEOUT_MS};
use eye_spy::outgoing::OutgoingStreamState;
use eye_spy::signal::StreamSignal;
use eye_spy::wire::{u32_le, u32_of_le};

#[test]
fn test_signal_codes_round_trip() {
    let signals = [
        StreamSignal::Idle,
        StreamSignal::Disconnect,
        StreamSignal::Pause,
        StreamSignal::Resume,
        StreamSignal::Connect,
        StreamSignal::Terminate,
    ];
    for s in signals {
        assert_eq!(StreamSignal::from_code(s.code()), s);
    }
    assert_eq!(StreamSignal::from_code(7), StreamSignal::Idle);
}

#[test]
fn test_outgoing_connect_forces_keyframe() {
    let mut state = OutgoingStreamState::new();
    let d = state.process_signal(StreamSignal::Connect, true);
    assert!(d.force_keyframe);
    assert!(d.open_stream);
    assert!(d.reset_signal);
    assert!(state.streaming);
    assert!(state.addr_bound);
    assert!(state.is_active());

    // a second connect reuses the open stream but still forces a keyframe
    let d = state.process_signal(StreamSignal::Connect, true);
    assert!(d.force_keyframe);
    assert!(!d.open_stream);
}

#[test]
fn test_outgoing_failed_connect_changes_nothing() {
    let mut state = OutgoingStreamState::new();
    let d = state.process_signal(StreamSignal::Connect, false);
    assert!(!d.reset_signal);
    assert!(!state.streaming);
    assert!(!state.addr_bound);
}

#[test]
fn test_outgoing_pause_resume_disconnect() {
    let mut state = OutgoingStreamState::new();
    state.process_signal(StreamSignal::Connect, true);
    let d = state.process_signal(StreamSignal::Pause, false);
    assert!(d.reset_signal);
    assert!(!state.streaming);
    assert!(state.addr_bound);
    let d = state.process_signal(StreamSignal::Resume, false);
    assert!(d.reset_signal);
    assert!(state.streaming);
    let d = state.process_signal(StreamSignal::Disconnect, false);
    assert!(d.drop_stream);
    assert!(!state.streaming);
    assert!(!state.addr_bound);
    let d = state.process_signal(StreamSignal::Terminate, false);
    assert!(d.exit);
    assert!(!d.reset_signal);
}

#[test]
fn test_incoming_signals() {
    let mut state = IncomingStreamState::new();
    let d = state.process_signal(StreamSignal::Connect, true);
    assert!(state.connected);
    assert!(d.reset_builder);
    assert!(d.reset_signal);
    let d = state.process_signal(StreamSignal::Disconnect, false);
    assert!(!state.connected);
    assert!(d.reset_signal);
    let d = state.process_signal(StreamSignal::Terminate, false);
    assert!(d.exit);
    // a failed connect leaves the signal for the host to observe
    let d = state.process_signal(StreamSignal::Connect, false);
    assert!(!state.connected);
    assert!(!d.reset_signal);
}

#[test]
fn test_liveness_timeout_threshold() {
    let mut state = IncomingStreamState::new();
    state.process_signal(StreamSignal::Connect, true);
    assert!(!state.connection_timed_out(CONNECTION_TIMEOUT_MS, 0));
    assert!(state.connection_timed_out(CONNECTION_TIMEOUT_MS + 1, 0));
    assert!(state.connection_timed_out(6000, 0));
    assert!(!state.connection_timed_out(6000, 2000));
    state.process_signal(StreamSignal::Disconnect, false);
    assert!(!state.connection_timed_out(6000, 0));
}

#[test]
fn test_u32_wire_round_trip() {
    for x in [0u32, 1, 255, 256, 0x12345678, u32::MAX] {
        assert_eq!(u32_of_le(&u32_le(x)), x);
    }
    assert_eq!(u32_le(1), vec![1, 0, 0, 0]);
}
