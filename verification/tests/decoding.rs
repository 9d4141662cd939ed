use arp_monitor::address::{Ipv4Address, MacAddress};
use arp_monitor::arp::{decode_arp, extract, ArpMessage};
use arp_monitor::frame::{decode, is_arp, DecodeError};

fn arp_payload(operation: u16, sender_mac: [u8; 6], sender_ip: [u8; 4], target_mac: [u8; 6], target_ip: [u8; 4]) -> Vec<u8> {
    let mut payload = vec![0x00, 0x01, 0x08, 0x00, 6, 4];
    payload.extend_from_slice(&operation.to_be_bytes());
    payload.extend_from_slice(&sender_mac);
    payload.extend_from_slice(&sender_ip);
    payload.extend_from_slice(&target_mac);
    payload.extend_from_slice(&target_ip);
    payload
}

fn ethernet_frame(ethertype: u16, payload: &[u8]) -> Vec<u8> {
    let mut frame = vec![0xff, 0xff, 0xff, 0xff, 0xff, 0xff, 0x02, 0x00, 0x00, 0x00, 0x00, 0x01];
    frame.extend_from_slice(&ethertype.to_be_bytes());
    frame.extend_from_slice(payload);
    frame
}

#[test]
fn decode_rejects_every_length_below_the_header() {
    for length in 0..14usize {
        let raw = vec![0xabu8; length];
        assert!(matches!(decode(&raw), Err(DecodeError::MalformedFrame)));
        assert_eq!(extract(&raw), Err(DecodeError::MalformedFrame));
    }
}

#[test]
fn decode_accepts_a_bare_header() {
    let raw = ethernet_frame(0x0800, &[]);
    assert_eq!(raw.len(), 14);
    let frame = decode(&raw).expect("a frame of 14 bytes holds the header");
    assert_eq!(frame.ethertype(), 0x0800);
    assert_eq!(frame.payload_offset(), 14);
    assert!(frame.payload().is_empty());
}

#[test]
fn ethertype_is_read_big_endian() {
    let raw = ethernet_frame(0x0806, &[1, 2, 3]);
    let frame = decode(&raw).unwrap();
    assert_eq!(frame.ethertype(), 0x0806);
    assert!(is_arp(&frame));
    assert_eq!(frame.payload(), &[1, 2, 3]);

    let swapped = ethernet_frame(0x0608, &[1, 2, 3]);
    let frame = decode(&swapped).unwrap();
    assert_eq!(frame.ethertype(), 0x0608);
    assert!(!is_arp(&frame));
}

#[test]
fn is_arp_only_for_0x0806() {
    for ethertype in [0x0800u16, 0x86dd, 0x8035, 0x0805, 0x0807, 0x0000, 0xffff] {
        let raw = ethernet_frame(ethertype, &[0u8; 28]);
        assert!(!is_arp(&decode(&raw).unwrap()));
    }
}

#[test]
fn decode_arp_reads_every_field() {
    let payload = arp_payload(
        2,
        [0xaa, 0xbb, 0xcc, 0xdd, 0xee, 0xff],
        [10, 0, 0, 1],
        [0x01, 0x23, 0x45, 0x67, 0x89, 0xab],
        [10, 0, 0, 5],
    );
    assert_eq!(payload.len(), 28);
    assert_eq!(
        decode_arp(&payload),
        Ok(ArpMessage {
            operation: 2,
            sender_hardware: MacAddress(0xaa, 0xbb, 0xcc, 0xdd, 0xee, 0xff),
            sender_protocol: Ipv4Address(10, 0, 0, 1),
            target_hardware: MacAddress(0x01, 0x23, 0x45, 0x67, 0x89, 0xab),
            target_protocol: Ipv4Address(10, 0, 0, 5),
        })
    );
}

#[test]
fn decode_arp_reads_the_operation_big_endian() {
    let payload = arp_payload(0x0102, [0; 6], [0; 4], [0; 6], [0; 4]);
    assert_eq!(decode_arp(&payload).unwrap().operation, 0x0102);
}

#[test]
fn decode_arp_rejects_short_payloads() {
    let payload = arp_payload(1, [1; 6], [2; 4], [3; 6], [4; 4]);
    for length in 0..28usize {
        assert_eq!(decode_arp(&payload[..length]), Err(DecodeError::MalformedArp));
    }
}

#[test]
fn decode_arp_ignores_bytes_behind_the_packet() {
    let mut payload = arp_payload(1, [1; 6], [10, 0, 0, 5], [0; 6], [10, 0, 0, 1]);
    let expected = decode_arp(&payload);
    payload.extend_from_slice(&[0u8; 18]);
    assert!(expected.is_ok());
    assert_eq!(decode_arp(&payload), expected);
}

#[test]
fn decode_arp_rejects_other_address_lengths() {
    let good = arp_payload(1, [1; 6], [2; 4], [3; 6], [4; 4]);
    let mut wrong_hardware = good.clone();
    wrong_hardware[4] = 8;
    assert_eq!(decode_arp(&wrong_hardware), Err(DecodeError::MalformedArp));
    let mut wrong_protocol = good.clone();
    wrong_protocol[5] = 16;
    assert_eq!(decode_arp(&wrong_protocol), Err(DecodeError::MalformedArp));
    let mut swapped = good.clone();
    swapped[4] = 4;
    swapped[5] = 6;
    assert_eq!(decode_arp(&swapped), Err(DecodeError::MalformedArp));
    assert!(decode_arp(&good).is_ok());
}

#[test]
fn extract_gives_nothing_for_other_ethertypes() {
    let payload = arp_payload(1, [1; 6], [2; 4], [3; 6], [4; 4]);
    assert_eq!(extract(&ethernet_frame(0x0800, &payload)), Ok(None));
    assert_eq!(extract(&ethernet_frame(0x0800, &[])), Ok(None));
    // A payload that would be malformed ARP is not looked at.
    assert_eq!(extract(&ethernet_frame(0x86dd, &[1, 2, 3])), Ok(None));
}

#[test]
fn extract_decodes_the_payload_of_an_arp_frame() {
    let payload = arp_payload(1, [0xaa; 6], [10, 0, 0, 5], [0; 6], [10, 0, 0, 1]);
    let message = extract(&ethernet_frame(0x0806, &payload)).unwrap().unwrap();
    assert_eq!(message.operation, 1);
    assert_eq!(message.sender_protocol, Ipv4Address(10, 0, 0, 5));
    assert_eq!(message.target_protocol, Ipv4Address(10, 0, 0, 1));
    assert_eq!(message.sender_hardware, MacAddress(0xaa, 0xaa, 0xaa, 0xaa, 0xaa, 0xaa));
}

#[test]
fn extract_reports_malformed_arp() {
    assert_eq!(extract(&ethernet_frame(0x0806, &[0u8; 27])), Err(DecodeError::MalformedArp));
    let mut payload = arp_payload(1, [1; 6], [2; 4], [3; 6], [4; 4]);
    payload[4] = 0;
    assert_eq!(extract(&ethernet_frame(0x0806, &payload)), Err(DecodeError::MalformedArp));
}
