use eye_spy::fragment::{fragment_nal_unit, fragment_nal_unit_checked};
use eye_spy::nal::NalBuilder;

fn data_fragment(data: &[u8], ident: u32) -> Vec<u8> {
    let mut f = data.to_vec();
    f.extend_from_slice(&ident.to_le_bytes());
    f
}

const TERMINATOR: &[u8] = b"11111111111";

#[test]
fn test_reassembler_happy_path() {
    let mut b = NalBuilder::new();
    let d1 = vec![0xAAu8; 500];
    let d2 = vec![0xBBu8; 500];
    b.add_data(&data_fragment(&d1, 1));
    assert!(b.get_nal_unit().is_none());
    b.add_data(&data_fragment(&d2, 2));
    assert!(b.get_nal_unit().is_none());
    b.add_data(TERMINATOR);
    let unit = b.get_nal_unit().expect("unit should be complete");
    assert_eq!(unit.len(), 1000);
    assert!(unit[..500].iter().all(|&x| x == 0xAA));
    assert!(unit[500..].iter().all(|&x| x == 0xBB));
}

#[test]
fn test_reassembler_gap_fails_unit() {
    let mut b = NalBuilder::new();
    let d1 = vec![0x01u8; 500];
    let d3 = vec![0x03u8; 500];
    b.add_data(&data_fragment(&d1, 1));
    b.add_data(&data_fragment(&d3, 3));
    assert!(b.failed);
    b.add_data(TERMINATOR);
    assert!(b.get_nal_unit().is_none());
}

#[test]
fn test_reassembler_restart_after_failure() {
    let mut b = NalBuilder::new();
    b.add_data(&data_fragment(&[0x01; 500], 1));
    b.add_data(&data_fragment(&[0x03; 500], 3));
    b.add_data(TERMINATOR);
    assert!(b.get_nal_unit().is_none());

    // a fragment with identifier 1 starts a new unit cleanly
    let fresh = vec![0x77u8; 300];
    b.add_data(&data_fragment(&fresh, 1));
    assert!(!b.failed);
    assert!(!b.finished);
    b.add_data(TERMINATOR);
    let unit = b.get_nal_unit().expect("the new unit should be complete");
    assert_eq!(unit, &fresh[..]);
}

#[test]
fn test_reassembler_discards_short_payloads() {
    let mut b = NalBuilder::new();
    b.add_data(&[1, 2, 3, 4]);
    assert!(!b.finished);
    assert!(!b.failed);
    assert_eq!(b.last_packet, 0);
}

#[test]
fn test_fragment_layout() {
    let unit = vec![0x5Au8; 1000];
    let frags = fragment_nal_unit(&unit);
    assert_eq!(frags.len(), 3);
    assert_eq!(frags[0].len(), 508);
    assert!(frags[0][..504].iter().all(|&x| x == 0x5A));
    assert_eq!(&frags[0][504..], &1u32.to_le_bytes());
    assert_eq!(frags[1].len(), 500);
    assert!(frags[1][..496].iter().all(|&x| x == 0x5A));
    assert_eq!(&frags[1][496..], &2u32.to_le_bytes());
    assert_eq!(&frags[2][..], TERMINATOR);
}

#[test]
fn test_fragment_then_reassemble() {
    let unit: Vec<u8> = (0..10000u32).map(|i| (i % 251) as u8).collect();
    let frags = fragment_nal_unit_checked(&unit).expect("the length fits");
    let mut b = NalBuilder::new();
    for f in &frags {
        assert!(b.can_add_data(f));
        b.add_data(f);
    }
    let rebuilt = b.get_nal_unit().expect("the unit should be complete");
    assert_eq!(rebuilt, &unit[..]);
}

#[test]
fn test_fragment_empty_unit_is_just_terminator() {
    let frags = fragment_nal_unit(&[]);
    assert_eq!(frags.len(), 1);
    assert_eq!(&frags[0][..], TERMINATOR);
}

#[test]
fn test_can_add_data_rejects_overflow() {
    let mut b = NalBuilder::new();
    // 65 fragments of 1020 data bytes overflow the 65,535-byte buffer
    let data = vec![0u8; 1020];
    let mut ident: u32 = 1;
    while b.can_add_data(&data_fragment(&data, ident)) {
        b.add_data(&data_fragment(&data, ident));
        ident += 1;
        assert!(ident < 100, "the buffer limit should be reached");
    }
    assert!(ident > 60);
    // identifier zero is never valid
    assert!(!NalBuilder::new().can_add_data(&data_fragment(&data, 0)));
}
