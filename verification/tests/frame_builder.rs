use eye_spy::frame::FrameBuilder;

#[test]
fn test_frame_initialization() {
    let frame = FrameBuilder::new();
    assert!(!frame.finished);
    assert_eq!(frame.last_packet, 0);
    assert_eq!(frame.buffers[0].len(), 1024 * 512);
    assert!(frame.buffers[0].iter().all(|&byte| byte == 0));
}

#[test]
fn test_frame_end_detection() {
    let mut frame = FrameBuilder::new();
    let frame_end_buf = b"11111111111";
    frame.add_data(frame_end_buf, frame_end_buf.len());
    assert!(frame.finished);
}

#[test]
fn test_add_data_to_frame() {
    let mut frame = FrameBuilder::new();

    let packet_data: Vec<u8> = vec![0xAB; 500];
    let ident: u32 = 1;
    let ident_bytes = ident.to_le_bytes();
    let mut buf = Vec::with_capacity(504);
    buf.extend_from_slice(&packet_data);
    buf.extend_from_slice(&ident_bytes);

    frame.add_data(&buf, buf.len());

    assert_eq!(frame.last_packet, ident);
    assert!(!frame.finished);

    for (i, &byte) in packet_data.iter().enumerate() {
        assert_eq!(frame.buffers[0][i], byte);
    }
}

#[test]
fn test_frame_clear() {
    let mut frame = FrameBuilder::new();

    frame.finished = true;
    frame.last_packet = 10;
    frame.switch_buffer();

    assert!(!frame.finished);
    assert_eq!(frame.last_packet, 0);
}

#[test]
fn test_frame_gap_lands_at_identifier_offset() {
    let mut frame = FrameBuilder::new();

    let mut first = vec![0x11u8; 504];
    first.extend_from_slice(&1u32.to_le_bytes());
    frame.add_data(&first, first.len());

    // identifier 3: identifier 2 was lost, so the data lands at its own
    // offset and the bytes in between keep their old contents
    let mut third = vec![0x33u8; 504];
    third.extend_from_slice(&3u32.to_le_bytes());
    frame.add_data(&third, third.len());

    assert_eq!(frame.last_packet, 3);
    assert_eq!(frame.buffers[0][0], 0x11);
    assert_eq!(frame.buffers[0][503], 0x11);
    assert_eq!(frame.buffers[0][504], 0x00);
    assert_eq!(frame.buffers[0][1007], 0x00);
    assert_eq!(frame.buffers[0][1008], 0x33);
    assert_eq!(frame.buffers[0][1511], 0x33);
}

#[test]
fn test_frame_switches_buffer_on_restart() {
    let mut frame = FrameBuilder::new();

    let mut first = vec![0x42u8; 10];
    first.extend_from_slice(&1u32.to_le_bytes());
    frame.add_data(&first, first.len());
    frame.add_data(b"11111111111", 11);
    assert!(frame.finished);

    // a fresh identifier 1 starts a new frame in the other buffer
    let mut again = vec![0x99u8; 10];
    again.extend_from_slice(&1u32.to_le_bytes());
    frame.add_data(&again, again.len());
    assert!(!frame.finished);
    assert_eq!(frame.selected_buffer, 1);
    assert_eq!(frame.buffers[1][0], 0x99);
    let last = frame.get_last_frame().unwrap();
    assert_eq!(last[0], 0x42);
}
