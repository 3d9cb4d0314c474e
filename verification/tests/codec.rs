use eye_spy::codec::{SCPParseError, ScpCommand, ScpMessage};

const SCP_HEADER: &[u8] = b"12345654321\n";
const SCP_END: &[u8] = b"1234564321\n";

fn get_correct_message() -> Vec<u8> {
    [
        SCP_HEADER,
        &(ScpCommand::SimpleMessage as u16).to_le_bytes(),
        b"Hello\n",
        SCP_END,
    ]
    .iter()
    .cloned()
    .flatten()
    .cloned()
    .collect()
}

fn get_bad_message() -> Vec<u8> {
    [
        SCP_HEADER,
        &(ScpCommand::KeyShare as u16).to_le_bytes(),
        b"\n",
        SCP_END,
    ]
    .iter()
    .cloned()
    .flatten()
    .cloned()
    .collect()
}

#[test]
fn test_scp_deserialization() {
    let msg = ScpMessage::deserialize(&get_correct_message());
    assert!(msg.is_ok());
    let msg = msg.unwrap();
    let string_msg = String::from_utf8_lossy(&msg.body);
    assert!(string_msg == "Hello")
}

#[test]
fn test_bad_scp() {
    let msg = ScpMessage::deserialize(&get_bad_message());
    assert!(msg.is_err());
    assert!(msg.is_err_and(|e| e == SCPParseError::MissingBody))
}

#[test]
fn test_serialize_simple_message() {
    let msg = ScpMessage::new(ScpCommand::SimpleMessage, b"Hello");
    let bytes = msg.as_bytes();
    let mut expected: Vec<u8> = Vec::new();
    expected.extend_from_slice(SCP_HEADER);
    expected.extend_from_slice(&[0x07, 0x00]);
    expected.extend_from_slice(b"Hello");
    expected.extend_from_slice(b"\n");
    expected.extend_from_slice(SCP_END);
    assert_eq!(bytes, expected);
    let parsed = ScpMessage::deserialize(&bytes).unwrap();
    assert_eq!(parsed.body, b"Hello".to_vec());
    assert_eq!(parsed.command, ScpCommand::SimpleMessage);
}

#[test]
fn test_round_trip_every_command() {
    let commands = [
        ScpCommand::Start,
        ScpCommand::OwnKeyRequired,
        ScpCommand::ReqGenerateKey,
        ScpCommand::AckGenerateKey,
        ScpCommand::KeyShare,
        ScpCommand::PreferencesShare,
        ScpCommand::Ready,
        ScpCommand::SimpleMessage,
        ScpCommand::End,
    ];
    for c in commands {
        let body: &[u8] = if c.requires_body() { b"payload" } else { b"" };
        let msg = ScpMessage::new(c, body);
        let parsed = ScpMessage::deserialize(&msg.as_bytes()).unwrap();
        assert_eq!(parsed.command, c);
        assert_eq!(parsed.body, body.to_vec());
    }
}

#[test]
fn test_missing_header_is_bad_structure() {
    let msg = ScpMessage::deserialize(b"nonsense bytes without the header");
    assert_eq!(msg.unwrap_err(), SCPParseError::BadStructure);
}

#[test]
fn test_truncated_tail_is_missing_end() {
    let mut bytes = get_correct_message();
    bytes.truncate(bytes.len() - 3);
    let msg = ScpMessage::deserialize(&bytes);
    assert_eq!(msg.unwrap_err(), SCPParseError::MissingEnd);
}

#[test]
fn test_no_command_is_missing_command() {
    let mut bytes: Vec<u8> = Vec::new();
    bytes.extend_from_slice(SCP_HEADER);
    bytes.extend_from_slice(SCP_END);
    let msg = ScpMessage::deserialize(&bytes);
    assert_eq!(msg.unwrap_err(), SCPParseError::MissingCommand);
}

#[test]
fn test_out_of_range_command_is_bad_structure() {
    let mut bytes: Vec<u8> = Vec::new();
    bytes.extend_from_slice(SCP_HEADER);
    bytes.extend_from_slice(&9u16.to_le_bytes());
    bytes.extend_from_slice(b"body");
    bytes.extend_from_slice(b"\n");
    bytes.extend_from_slice(SCP_END);
    let msg = ScpMessage::deserialize(&bytes);
    assert_eq!(msg.unwrap_err(), SCPParseError::BadStructure);
}

#[test]
fn test_empty_body_without_requirement_is_ok() {
    let mut bytes: Vec<u8> = Vec::new();
    bytes.extend_from_slice(SCP_HEADER);
    bytes.extend_from_slice(&(ScpCommand::Ready as u16).to_le_bytes());
    bytes.extend_from_slice(b"\n");
    bytes.extend_from_slice(SCP_END);
    let msg = ScpMessage::deserialize(&bytes).unwrap();
    assert_eq!(msg.command, ScpCommand::Ready);
    assert!(msg.body.is_empty());
}
