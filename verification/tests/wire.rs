use pingstats::checksum::has_valid_checksum;
use pingstats::wire::{build_echo_request, ECHO_HEADER_LEN, ECHO_REPLY, ECHO_REQUEST, REQUEST_LEN};
use pnet::packet::icmp::echo_request::MutableEchoRequestPacket;
use pnet::packet::icmp::{IcmpPacket, IcmpTypes};
use pnet::packet::Packet;

#[test]
fn request_has_the_documented_layout() {
    let packet = build_echo_request(0x1234, 0x0001);
    assert_eq!(packet.len(), REQUEST_LEN);
    assert_eq!(packet.len(), 64);
    assert_eq!(packet[0], ECHO_REQUEST);
    assert_eq!(packet[1], 0);
    assert_eq!(&packet[4..6], &[0x12, 0x34]);
    assert_eq!(&packet[6..8], &[0x00, 0x01]);
    assert!(packet[8..].iter().all(|b| *b == 0));
}

#[test]
fn request_checksum_has_the_expected_value() {
    // 0x0800 + 0x1234 + 0x0001 = 0x1a35, whose complement is 0xe5ca.
    let packet = build_echo_request(0x1234, 0x0001);
    assert_eq!(&packet[2..4], &[0xe5, 0xca]);
    assert!(has_valid_checksum(&packet));
}

#[test]
fn request_checksum_folds_the_carry() {
    // 0x0800 + 0xffff + 0xffff = 0x207fe, which folds to 0x0800.
    let packet = build_echo_request(0xffff, 0xffff);
    assert_eq!(&packet[2..4], &[0xf7, 0xff]);
    assert_eq!(&packet[4..8], &[0xff, 0xff, 0xff, 0xff]);
    assert!(has_valid_checksum(&packet));
}

#[test]
fn request_of_zero_identifier_and_sequence() {
    let packet = build_echo_request(0, 0);
    assert_eq!(&packet[..8], &[8, 0, 0xf7, 0xff, 0, 0, 0, 0]);
    assert!(has_valid_checksum(&packet));
}

#[test]
fn request_equals_what_the_packet_crate_builds_by_hand() {
    for (identifier, sequence) in [(0u16, 0u16), (1, 2), (0xbeef, 41), (0xffff, 0xffff), (0x00ff, 0xff00)] {
        let mut buffer = [0u8; 64];
        let mut packet = MutableEchoRequestPacket::new(&mut buffer).unwrap();
        packet.set_icmp_type(IcmpTypes::EchoRequest);
        packet.set_sequence_number(sequence);
        packet.set_identifier(identifier);
        let sum = pnet::packet::icmp::checksum(&IcmpPacket::new(packet.packet()).unwrap());
        packet.set_checksum(sum);
        assert_eq!(build_echo_request(identifier, sequence), buffer.to_vec());
    }
}

#[test]
fn every_request_checks_out() {
    let mut identifier: u16 = 0;
    loop {
        let packet = build_echo_request(identifier, identifier.wrapping_mul(31).wrapping_add(7));
        assert!(has_valid_checksum(&packet));
        if identifier > 0xffff - 257 {
            break;
        }
        identifier += 257;
    }
}

#[test]
fn a_flipped_bit_breaks_the_checksum() {
    let mut packet = build_echo_request(0x1234, 9);
    packet[20] ^= 0x01;
    assert!(!has_valid_checksum(&packet));
    packet[20] ^= 0x01;
    assert!(has_valid_checksum(&packet));
    packet[2] ^= 0x80;
    assert!(!has_valid_checksum(&packet));
}

#[test]
fn checksum_of_short_and_long_messages() {
    assert!(!has_valid_checksum(&[]));
    assert!(!has_valid_checksum(&[0xff, 0xff, 0x00]));
    // Four bytes: the sum of 0xffff and 0x0000 is all ones.
    assert!(has_valid_checksum(&[0xff, 0xff, 0x00, 0x00]));
    assert!(!has_valid_checksum(&[0x00, 0x00, 0x00, 0x00]));
    assert!(has_valid_checksum(&[0x00, 0x00, 0xff, 0xff]));
    let mut long = vec![0xffu8; 65535];
    assert!(!has_valid_checksum(&long));
    long[65534] = 0;
    assert!(has_valid_checksum(&long));
    let mut longer = vec![0xffu8; 200_000];
    assert!(has_valid_checksum(&longer));
    longer[100_001] = 0xfe;
    assert!(!has_valid_checksum(&longer));
}

#[test]
fn checksum_accepts_both_zeros_of_ones_complement() {
    // The rest sums to 0xffff, so the computed checksum is 0x0000; a sender
    // may also have written 0xffff.
    assert!(has_valid_checksum(&[0xff, 0xff, 0x00, 0x00, 0x00, 0x00]));
    assert!(has_valid_checksum(&[0xff, 0xff, 0xff, 0xff, 0x00, 0x00]));
    assert!(!has_valid_checksum(&[0xff, 0xff, 0x00, 0x01, 0x00, 0x00]));
}

#[test]
fn checksum_of_an_odd_length_message() {
    // Words 0x0102, checksum, 0x0500: 0x0602 complemented is 0xf9fd.
    assert!(has_valid_checksum(&[0x01, 0x02, 0xf9, 0xfd, 0x05]));
    assert!(!has_valid_checksum(&[0x01, 0x02, 0xf9, 0xfd, 0x06]));
}

#[test]
fn the_validity_rule_agrees_with_the_packet_crate() {
    // The checksum that the packet crate computes over a message, written
    // into the message, makes the message pass; its successor does not.
    let mut seed: u32 = 0x2545_f491;
    for len in 4..200usize {
        let mut message = Vec::with_capacity(len);
        for _ in 0..len {
            seed ^= seed << 13;
            seed ^= seed >> 17;
            seed ^= seed << 5;
            message.push((seed >> 8) as u8);
        }
        let sum = pnet::packet::icmp::checksum(&IcmpPacket::new(&message).unwrap());
        message[2] = (sum >> 8) as u8;
        message[3] = sum as u8;
        assert!(has_valid_checksum(&message));
        let other = sum.wrapping_add(1);
        message[2] = (other >> 8) as u8;
        message[3] = other as u8;
        assert!(!has_valid_checksum(&message));
    }
}

#[test]
fn wire_constants() {
    assert_eq!(ECHO_REPLY, 0);
    assert_eq!(ECHO_REQUEST, 8);
    assert_eq!(ECHO_HEADER_LEN, 8);
    assert_eq!(REQUEST_LEN, 64);
}
