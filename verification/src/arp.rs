//! ARP for IPv4 over Ethernet: the message that a packet carries, and its
//! decoding.
//!
//! The fields are read by `pnet`; what its accessors return is stated here
//! over the bytes of the packet. `pnet` itself accepts any address lengths and
//! reads the addresses at fixed places; the lengths are checked here.

use crate::address::{Ipv4Address, MacAddress};
use crate::frame::{
    be16, decode, ethertype_of, is_arp, payload_of, DecodeError, ETHERNET_HEADER_LEN,
    ETHERTYPE_ARP,
};
use vstd::prelude::*;

verus! {

/// The length of an ARP packet with 6-byte hardware and 4-byte protocol
/// addresses.
pub const ARP_PACKET_LEN: usize = 28;

/// The length of an Ethernet hardware address.
pub const HARDWARE_ADDRESS_LEN: u8 = 6;

/// The length of an IPv4 protocol address.
pub const PROTOCOL_ADDRESS_LEN: u8 = 4;

/// The operation code of an ARP request.
pub const OPERATION_REQUEST: u16 = 1;

/// The operation code of an ARP reply.
pub const OPERATION_REPLY: u16 = 2;

/// A decoded ARP packet for IPv4 over Ethernet.
#[derive(Clone, Copy, Debug, PartialEq, Eq, Structural)]
pub struct ArpMessage {
    /// The operation code.
    pub operation: u16,
    /// The sender's hardware address.
    pub sender_hardware: MacAddress,
    /// The sender's protocol address.
    pub sender_protocol: Ipv4Address,
    /// The target's hardware address.
    pub target_hardware: MacAddress,
    /// The target's protocol address.
    pub target_protocol: Ipv4Address,
}

/// Six bytes of `bytes` from `at` on, as a hardware address.
pub open spec fn mac_at(bytes: Seq<u8>, at: int) -> MacAddress {
    MacAddress(
        bytes[at],
        bytes[at + 1],
        bytes[at + 2],
        bytes[at + 3],
        bytes[at + 4],
        bytes[at + 5],
    )
}

/// Four bytes of `bytes` from `at` on, as an IPv4 address.
pub open spec fn ipv4_at(bytes: Seq<u8>, at: int) -> Ipv4Address {
    Ipv4Address(bytes[at], bytes[at + 1], bytes[at + 2], bytes[at + 3])
}

/// Whether `payload` is an ARP packet for IPv4 over Ethernet: long enough for
/// the fixed layout, and announcing 6-byte hardware and 4-byte protocol
/// addresses.
pub open spec fn is_ipv4_over_ethernet(payload: Seq<u8>) -> bool {
    &&& payload.len() >= ARP_PACKET_LEN
    &&& payload[4] == HARDWARE_ADDRESS_LEN
    &&& payload[5] == PROTOCOL_ADDRESS_LEN
}

/// The fields of an ARP packet for IPv4 over Ethernet.
pub open spec fn arp_fields(payload: Seq<u8>) -> ArpMessage {
    ArpMessage {
        operation: be16(payload[6], payload[7]),
        sender_hardware: mac_at(payload, 8),
        sender_protocol: ipv4_at(payload, 14),
        target_hardware: mac_at(payload, 18),
        target_protocol: ipv4_at(payload, 24),
    }
}

/// What decoding a payload as ARP gives.
pub open spec fn decoded_arp(payload: Seq<u8>) -> Result<ArpMessage, DecodeError> {
    if is_ipv4_over_ethernet(payload) {
        Ok(arp_fields(payload))
    } else {
        Err(DecodeError::MalformedArp)
    }
}

/// `pnet`'s view of an ARP packet. Nothing of it is seen here but through
/// the functions below.
#[verifier::external_type_specification]
#[verifier::external_body]
pub struct ExArpPacket<'p>(pnet::packet::arp::ArpPacket<'p>);

/// The buffer that a `pnet` ARP view was made over.
pub uninterp spec fn arp_bytes(view: &pnet::packet::arp::ArpPacket) -> Seq<u8>;

/// `ArpPacket::new`: gives a view over the whole buffer exactly when the
/// buffer holds at least the 28 bytes of the fixed layout, and copies nothing.
#[verifier::external_body]
fn arp_view<'a>(payload: &'a [u8]) -> (view: Option<pnet::packet::arp::ArpPacket<'a>>)
    ensures
        view is Some <==> payload@.len() >= 28,
        view matches Some(v) ==> arp_bytes(&v) == payload@,
{
    pnet::packet::arp::ArpPacket::new(payload)
}

/// `ArpPacket::get_hw_addr_len`: byte 4 of the buffer.
#[verifier::external_body]
fn arp_hardware_length(view: &pnet::packet::arp::ArpPacket) -> (length: u8)
    ensures
        length == arp_bytes(view)[4],
{
    view.get_hw_addr_len()
}

/// `ArpPacket::get_proto_addr_len`: byte 5 of the buffer.
#[verifier::external_body]
fn arp_protocol_length(view: &pnet::packet::arp::ArpPacket) -> (length: u8)
    ensures
        length == arp_bytes(view)[5],
{
    view.get_proto_addr_len()
}

/// `ArpPacket::get_operation`: bytes 6 and 7 of the buffer, read as a
/// big-endian number.
#[verifier::external_body]
fn arp_operation(view: &pnet::packet::arp::ArpPacket) -> (operation: u16)
    ensures
        operation == be16(arp_bytes(view)[6], arp_bytes(view)[7]),
{
    view.get_operation().0
}

/// `ArpPacket::get_sender_hw_addr`: bytes 8 to 13 of the buffer, in order.
#[verifier::external_body]
fn arp_sender_hardware(view: &pnet::packet::arp::ArpPacket) -> (address: MacAddress)
    ensures
        address == mac_at(arp_bytes(view), 8),
{
    let mac = view.get_sender_hw_addr();
    MacAddress(mac.0, mac.1, mac.2, mac.3, mac.4, mac.5)
}

/// `ArpPacket::get_sender_proto_addr`: bytes 14 to 17 of the buffer, in order.
#[verifier::external_body]
fn arp_sender_protocol(view: &pnet::packet::arp::ArpPacket) -> (address: Ipv4Address)
    ensures
        address == ipv4_at(arp_bytes(view), 14),
{
    let octets = view.get_sender_proto_addr().octets();
    Ipv4Address(octets[0], octets[1], octets[2], octets[3])
}

/// `ArpPacket::get_target_hw_addr`: bytes 18 to 23 of the buffer, in order.
#[verifier::external_body]
fn arp_target_hardware(view: &pnet::packet::arp::ArpPacket) -> (address: MacAddress)
    ensures
        address == mac_at(arp_bytes(view), 18),
{
    let mac = view.get_target_hw_addr();
    MacAddress(mac.0, mac.1, mac.2, mac.3, mac.4, mac.5)
}

/// `ArpPacket::get_target_proto_addr`: bytes 24 to 27 of the buffer, in order.
#[verifier::external_body]
fn arp_target_protocol(view: &pnet::packet::arp::ArpPacket) -> (address: Ipv4Address)
    ensures
        address == ipv4_at(arp_bytes(view), 24),
{
    let octets = view.get_target_proto_addr().octets();
    Ipv4Address(octets[0], octets[1], octets[2], octets[3])
}

/// Decodes the payload of an Ethernet frame as ARP. Fails with `MalformedArp`
/// where the payload is shorter than 28 bytes or announces address lengths
/// other than 6 and 4; otherwise gives the fields of the packet.
pub fn decode_arp(payload: &[u8]) -> (packet: Result<ArpMessage, DecodeError>)
    ensures
        packet == decoded_arp(payload@),
{
    match arp_view(payload) {
        None => Err(DecodeError::MalformedArp),
        Some(view) => {
            if arp_hardware_length(&view) != HARDWARE_ADDRESS_LEN || arp_protocol_length(&view)
                != PROTOCOL_ADDRESS_LEN {
                Err(DecodeError::MalformedArp)
            } else {
                Ok(
                    ArpMessage {
                        operation: arp_operation(&view),
                        sender_hardware: arp_sender_hardware(&view),
                        sender_protocol: arp_sender_protocol(&view),
                        target_hardware: arp_target_hardware(&view),
                        target_protocol: arp_target_protocol(&view),
                    },
                )
            }
        },
    }
}

/// What a captured frame holds for the monitor: nothing where its ethertype
/// is not that of ARP, else the ARP message in its payload.
pub open spec fn extracted(frame: Seq<u8>) -> Result<Option<ArpMessage>, DecodeError> {
    if frame.len() < ETHERNET_HEADER_LEN {
        Err(DecodeError::MalformedFrame)
    } else if ethertype_of(frame) != ETHERTYPE_ARP {
        Ok(None)
    } else if is_ipv4_over_ethernet(payload_of(frame)) {
        Ok(Some(arp_fields(payload_of(frame))))
    } else {
        Err(DecodeError::MalformedArp)
    }
}

/// Decodes a captured frame as far as the monitor needs it. A frame shorter
/// than the Ethernet header fails with `MalformedFrame`. A frame of another
/// ethertype than ARP gives `None`, and its payload is not looked at. The
/// payload of an ARP frame is decoded, and fails with `MalformedArp` where it
/// is no IPv4-over-Ethernet ARP packet.
pub fn extract(raw: &[u8]) -> (message: Result<Option<ArpMessage>, DecodeError>)
    ensures
        message == extracted(raw@),
{
    let frame = match decode(raw) {
        Ok(frame) => frame,
        Err(error) => {
            return Err(error);
        },
    };
    if !is_arp(&frame) {
        return Ok(None);
    }
    match decode_arp(frame.payload()) {
        Ok(message) => Ok(Some(message)),
        Err(error) => Err(error),
    }
}

} // verus!
