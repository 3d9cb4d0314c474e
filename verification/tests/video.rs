use eye_spy::h264::{
    create_decoder, create_encoder, decode_unit_into_slot, encode_yuyv_frame, request_keyframe,
    split_nal_units, yuyv_to_planes, RGBA_FRAME_SIZE, YUYV_FRAME_SIZE,
};

#[test]
fn test_yuyv_plane_split() {
    // two pixel pairs: Y0 U Y1 V | Y0 U Y1 V
    let raw = [10u8, 20, 30, 40, 50, 60, 70, 80];
    let (y, u, v) = yuyv_to_planes(&raw);
    assert_eq!(y, vec![10, 30, 50, 70]);
    assert_eq!(u, vec![20, 60]);
    assert_eq!(v, vec![40, 80]);
}

#[test]
fn test_split_nal_units_finds_start_codes() {
    let stream = [0u8, 0, 1, 0x65, 0xAA, 0, 0, 1, 0x41, 0xBB];
    let units = split_nal_units(&stream);
    assert_eq!(units.len(), 2);
    assert_eq!(units[0], vec![0, 0, 1, 0x65, 0xAA]);
    assert_eq!(units[1], vec![0, 0, 1, 0x41, 0xBB]);
    assert!(split_nal_units(&[]).is_empty());
}

#[test]
fn test_encode_flat_frame_produces_bitstream() {
    let mut enc = match create_encoder() {
        Some(enc) => enc,
        None => return,
    };
    request_keyframe(&mut enc);
    // a flat mid-grey YUYV frame
    let raw = vec![0x80u8; YUYV_FRAME_SIZE];
    let out = encode_yuyv_frame(&mut enc, &raw).expect("encoding a plain frame should succeed");
    assert!(!out.is_empty(), "Buffer is empty after encoding");
    assert!(
        out.starts_with(&[0x00, 0x00, 0x00, 0x01]) || out.starts_with(&[0x00, 0x00, 0x01]),
        "Encoded frame does not start with a valid H264 NAL unit start code"
    );
}

#[test]
fn test_encode_then_decode_round_trip() {
    let mut enc = match create_encoder() {
        Some(enc) => enc,
        None => return,
    };
    let mut dec = match create_decoder() {
        Some(dec) => dec,
        None => return,
    };
    request_keyframe(&mut enc);
    let raw = vec![0x80u8; YUYV_FRAME_SIZE];
    let bitstream = encode_yuyv_frame(&mut enc, &raw).expect("encoding should succeed");
    let mut slot = vec![0u8; RGBA_FRAME_SIZE];
    let mut stored = false;
    for unit in split_nal_units(&bitstream) {
        stored = decode_unit_into_slot(&mut dec, &unit, &mut slot) || stored;
    }
    assert!(stored, "Couldn't recover even one frame from the stream.");
    // mid-grey YUV decodes to mid-grey RGBA with full alpha
    assert_eq!(slot[3], 255);
    assert!(slot[0] > 100 && slot[0] < 160);
}

#[test]
fn test_decode_garbage_stores_nothing() {
    let mut dec = match create_decoder() {
        Some(dec) => dec,
        None => return,
    };
    let mut slot = vec![7u8; RGBA_FRAME_SIZE];
    let stored = decode_unit_into_slot(&mut dec, &[1, 2, 3, 4, 5], &mut slot);
    assert!(!stored);
    assert!(slot.iter().all(|&x| x == 7));
}

#[test]
fn test_store_decoded_frame_exact_gate() {
    let mut slot = vec![9u8; RGBA_FRAME_SIZE];
    let frame = vec![5u8; RGBA_FRAME_SIZE];

    // only a full 640x480 RGBA frame is stored
    assert!(!eye_spy::h264::store_decoded_frame(&frame, 320, 480, &mut slot));
    assert!(slot.iter().all(|&x| x == 9));
    assert!(!eye_spy::h264::store_decoded_frame(&frame, 640, 240, &mut slot));
    assert!(slot.iter().all(|&x| x == 9));
    let short = vec![5u8; RGBA_FRAME_SIZE - 1];
    assert!(!eye_spy::h264::store_decoded_frame(&short, 640, 480, &mut slot));
    assert!(slot.iter().all(|&x| x == 9));

    assert!(eye_spy::h264::store_decoded_frame(&frame, 640, 480, &mut slot));
    assert!(slot.iter().all(|&x| x == 5));
}
