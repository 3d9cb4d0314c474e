use eye_spy::prefs::{parse_preferences, serialize_preferences, Preferences};

#[test]
fn test_preferences_wire_text() {
    let text = serialize_preferences(&Preferences::default());
    assert_eq!(
        String::from_utf8(text).unwrap(),
        "video_encoding=H264\naudio_encoding=NoIdea\nport_in_video=07000\n\
         port_in_audio=07001\nport_scp=60201\n"
    );
}

#[test]
fn test_preferences_round_trip() {
    let mut p = Preferences::default();
    p.port_in_video = 7100;
    p.port_in_audio = 0;
    p.port_scp = 65535;
    let parsed = parse_preferences(&serialize_preferences(&p)).unwrap();
    assert_eq!(parsed, p);
}

#[test]
fn test_preferences_reject_garbage() {
    assert!(parse_preferences(b"not preferences at all").is_none());
    let mut text = serialize_preferences(&Preferences::default());
    text[0] = b'x';
    assert!(parse_preferences(&text).is_none());
    let mut bad_digit = serialize_preferences(&Preferences::default());
    bad_digit[56] = b'x';
    assert!(parse_preferences(&bad_digit).is_none());
    let truncated = &serialize_preferences(&Preferences::default())[..96];
    assert!(parse_preferences(truncated).is_none());
}

#[test]
fn test_preferences_reject_port_overflow() {
    // the digits 70000 are well formed but no u16 port
    let mut text = serialize_preferences(&Preferences::default());
    text[56] = b'7';
    text[57] = b'0';
    text[58] = b'0';
    text[59] = b'0';
    text[60] = b'0';
    assert!(parse_preferences(&text).is_none());
}
