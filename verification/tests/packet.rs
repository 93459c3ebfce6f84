use wksl::wake::{make_packet, MAC_LEN, PACKET_LEN, REPETITIONS, SYNC_LEN};

const ADDRESSES: [[u8; 6]; 5] = [
    [0x00, 0x11, 0x22, 0x33, 0x44, 0x55],
    [0x00, 0x00, 0x00, 0x00, 0x00, 0x00],
    [0xFF, 0xFF, 0xFF, 0xFF, 0xFF, 0xFF],
    [0xDE, 0xAD, 0xBE, 0xEF, 0x00, 0x01],
    [0x01, 0x02, 0x03, 0x04, 0x05, 0x06],
];

#[test]
fn packet_for_a_known_address() {
    let packet = make_packet(&[0x00, 0x11, 0x22, 0x33, 0x44, 0x55]);
    let mut expected: Vec<u8> = vec![0xFF, 0xFF, 0xFF, 0xFF, 0xFF, 0xFF];
    for _ in 0..16 {
        expected.extend_from_slice(&[0x00, 0x11, 0x22, 0x33, 0x44, 0x55]);
    }
    assert_eq!(packet.len(), 102);
    assert_eq!(&packet[..], &expected[..]);
    assert_eq!(
        &packet[..18],
        &[
            0xFF, 0xFF, 0xFF, 0xFF, 0xFF, 0xFF, 0x00, 0x11, 0x22, 0x33, 0x44, 0x55, 0x00, 0x11,
            0x22, 0x33, 0x44, 0x55
        ]
    );
    assert_eq!(&packet[96..], &[0x00, 0x11, 0x22, 0x33, 0x44, 0x55]);
}

#[test]
fn packet_sizes_add_up() {
    assert_eq!(MAC_LEN, 6);
    assert_eq!(SYNC_LEN, 6);
    assert_eq!(REPETITIONS, 16);
    assert_eq!(PACKET_LEN, 102);
    assert_eq!(SYNC_LEN + REPETITIONS * MAC_LEN, PACKET_LEN);
}

#[test]
fn every_packet_has_102_bytes() {
    for mac in ADDRESSES.iter() {
        assert_eq!(make_packet(mac).len(), 102);
    }
}

#[test]
fn every_packet_opens_with_six_ff() {
    for mac in ADDRESSES.iter() {
        let packet = make_packet(mac);
        assert_eq!(&packet[0..6], &[0xFFu8; 6]);
    }
}

#[test]
fn every_block_repeats_the_address() {
    for mac in ADDRESSES.iter() {
        let packet = make_packet(mac);
        for block in 0..16 {
            assert_eq!(&packet[6 + 6 * block..12 + 6 * block], &mac[..]);
        }
    }
}

#[test]
fn same_address_gives_same_packet() {
    for mac in ADDRESSES.iter() {
        let before = *mac;
        let first = make_packet(mac);
        let second = make_packet(mac);
        assert_eq!(first, second);
        assert_eq!(*mac, before);
    }
}

#[test]
fn different_addresses_give_different_packets() {
    for (i, first) in ADDRESSES.iter().enumerate() {
        for (j, second) in ADDRESSES.iter().enumerate() {
            assert_eq!(make_packet(first) == make_packet(second), i == j);
        }
    }
}

#[test]
fn a_malformed_address_still_fills_the_packet() {
    let packet = make_packet(&[0x00; 6]);
    assert_eq!(&packet[0..6], &[0xFFu8; 6]);
    assert!(packet[6..].iter().all(|byte| *byte == 0x00));
    let packet = make_packet(&[0xFF; 6]);
    assert!(packet.iter().all(|byte| *byte == 0xFF));
}
