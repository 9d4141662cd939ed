//! Ethernet II framing: the view of a captured frame.
//!
//! The header is read by `pnet`; what its accessors return is stated here
//! over the bytes of the frame.

use pnet::packet::ethernet::EthernetPacket;
use pnet::packet::Packet;
use vstd::prelude::*;

verus! {

/// The length of the Ethernet II header: two hardware addresses and the
/// ethertype.
pub const ETHERNET_HEADER_LEN: usize = 14;

/// The ethertype of ARP.
pub const ETHERTYPE_ARP: u16 = 0x0806;

/// Why a captured packet could not be decoded. Either failure concerns the
/// current packet only.
#[derive(Clone, Copy, Debug, PartialEq, Eq, Structural)]
pub enum DecodeError {
    /// The frame is shorter than the Ethernet header.
    MalformedFrame,
    /// The payload is no IPv4-over-Ethernet ARP packet.
    MalformedArp,
}

/// Two bytes read as one big-endian number.
pub open spec fn be16(hi: u8, lo: u8) -> u16 {
    (hi as int * 256 + lo as int) as u16
}

/// The ethertype that a frame of at least `ETHERNET_HEADER_LEN` bytes carries.
pub open spec fn ethertype_of(frame: Seq<u8>) -> u16 {
    be16(frame[12], frame[13])
}

/// What a frame carries behind its header.
pub open spec fn payload_of(frame: Seq<u8>) -> Seq<u8> {
    frame.skip(ETHERNET_HEADER_LEN as int)
}

/// `pnet`'s view of an Ethernet frame. Nothing of it is seen here but
/// through the functions below.
#[verifier::external_type_specification]
#[verifier::external_body]
pub struct ExEthernetPacket<'p>(EthernetPacket<'p>);

/// The buffer that a `pnet` Ethernet view was made over.
pub uninterp spec fn ethernet_bytes(view: &EthernetPacket) -> Seq<u8>;

/// `EthernetPacket::new`: gives a view over the whole buffer exactly when the
/// buffer holds at least the 14 bytes of the header, and copies nothing.
#[verifier::external_body]
fn ethernet_view<'a>(raw: &'a [u8]) -> (view: Option<EthernetPacket<'a>>)
    ensures
        view is Some <==> raw@.len() >= 14,
        view matches Some(v) ==> ethernet_bytes(&v) == raw@,
{
    EthernetPacket::new(raw)
}

/// `EthernetPacket::get_ethertype`: bytes 12 and 13 of the buffer, read as a
/// big-endian number.
#[verifier::external_body]
fn ethernet_ethertype(view: &EthernetPacket) -> (ethertype: u16)
    ensures
        ethertype == be16(ethernet_bytes(view)[12], ethernet_bytes(view)[13]),
{
    view.get_ethertype().0
}

/// `Packet::payload` of an Ethernet view: the part of the buffer behind the
/// first 14 bytes, empty where the buffer ends there.
#[verifier::external_body]
fn ethernet_payload<'a>(view: &'a EthernetPacket) -> (payload: &'a [u8])
    ensures
        payload@ == ethernet_bytes(view).skip(14),
{
    view.payload()
}

/// A decoded Ethernet frame: a view over the captured bytes, which it borrows.
pub struct EthernetFrame<'a> {
    view: EthernetPacket<'a>,
}

impl<'a> View for EthernetFrame<'a> {
    type V = Seq<u8>;

    /// The captured bytes that the frame looks at.
    closed spec fn view(&self) -> Seq<u8> {
        ethernet_bytes(&self.view)
    }
}

impl<'a> EthernetFrame<'a> {
    #[verifier::type_invariant]
    spec fn holds_header(self) -> bool {
        ethernet_bytes(&self.view).len() >= ETHERNET_HEADER_LEN
    }

    /// The ethertype field of the header.
    pub fn ethertype(&self) -> (ethertype: u16)
        ensures
            self@.len() >= ETHERNET_HEADER_LEN,
            ethertype == ethertype_of(self@),
    {
        proof {
            use_type_invariant(self);
        }
        ethernet_ethertype(&self.view)
    }

    /// Where the payload starts in the captured bytes.
    pub fn payload_offset(&self) -> (offset: usize)
        ensures
            offset == ETHERNET_HEADER_LEN,
            offset <= self@.len(),
    {
        proof {
            use_type_invariant(self);
        }
        ETHERNET_HEADER_LEN
    }

    /// The bytes behind the header.
    pub fn payload(&self) -> (payload: &[u8])
        ensures
            self@.len() >= ETHERNET_HEADER_LEN,
            payload@ == payload_of(self@),
    {
        proof {
            use_type_invariant(self);
        }
        ethernet_payload(&self.view)
    }
}

/// Decodes a captured frame. Fails with `MalformedFrame` exactly when the
/// frame is shorter than the Ethernet header; otherwise the result is a view
/// over all of `raw`.
pub fn decode<'a>(raw: &'a [u8]) -> (frame: Result<EthernetFrame<'a>, DecodeError>)
    ensures
        frame is Ok <==> raw@.len() >= ETHERNET_HEADER_LEN,
        frame matches Ok(f) ==> f@ == raw@,
        frame matches Err(e) ==> e == DecodeError::MalformedFrame,
{
    match ethernet_view(raw) {
        Some(view) => Ok(EthernetFrame { view }),
        None => Err(DecodeError::MalformedFrame),
    }
}

/// Whether the frame carries ARP.
pub fn is_arp(frame: &EthernetFrame) -> (arp: bool)
    ensures
        arp == (ethertype_of(frame@) == ETHERTYPE_ARP),
{
    frame.ethertype() == ETHERTYPE_ARP
}

} // verus!
