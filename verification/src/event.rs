//! ARP events: what a decoded message means to the monitor.

use crate::address::{Ipv4Address, MacAddress};
use crate::arp::{ArpMessage, OPERATION_REPLY, OPERATION_REQUEST};
use crate::timestamp::Timestamp;
use vstd::prelude::*;

verus! {

/// One observation of ARP traffic.
#[derive(Clone, Copy, Debug, PartialEq, Eq, Structural)]
pub enum ArpEvent {
    /// Somebody asks who has `dest`, and wants `source` to be told.
    Request { source: Ipv4Address, dest: Ipv4Address, timestamp: Timestamp },
    /// `replier_ip` announces to `destination_ip` that it is at `replier_mac`.
    Reply {
        replier_ip: Ipv4Address,
        replier_mac: MacAddress,
        destination_ip: Ipv4Address,
        timestamp: Timestamp,
    },
}

/// An ARP message whose operation code is neither request nor reply.
#[derive(Clone, Copy, Debug, PartialEq, Eq, Structural)]
pub struct UnsupportedOperation {
    /// The operation code found.
    pub code: u16,
}

impl ArpEvent {
    /// When the packet behind the event was captured.
    pub open spec fn spec_timestamp(&self) -> Timestamp {
        match *self {
            ArpEvent::Request { timestamp, .. } => timestamp,
            ArpEvent::Reply { timestamp, .. } => timestamp,
        }
    }

    /// When the packet behind the event was captured.
    #[verifier::when_used_as_spec(spec_timestamp)]
    pub fn timestamp(&self) -> (timestamp: Timestamp)
        ensures
            timestamp == self.spec_timestamp(),
    {
        match self {
            ArpEvent::Request { timestamp, .. } => *timestamp,
            ArpEvent::Reply { timestamp, .. } => *timestamp,
        }
    }
}

/// The event that a message stands for, by its operation code.
pub open spec fn classified(message: ArpMessage, timestamp: Timestamp) -> Result<
    ArpEvent,
    UnsupportedOperation,
> {
    if message.operation == OPERATION_REQUEST {
        Ok(
            ArpEvent::Request {
                source: message.sender_protocol,
                dest: message.target_protocol,
                timestamp,
            },
        )
    } else if message.operation == OPERATION_REPLY {
        Ok(
            ArpEvent::Reply {
                replier_ip: message.sender_protocol,
                replier_mac: message.sender_hardware,
                destination_ip: message.target_protocol,
                timestamp,
            },
        )
    } else {
        Err(UnsupportedOperation { code: message.operation })
    }
}

/// Classifies a decoded message captured at `timestamp`: operation 1 is a
/// request, operation 2 a reply, and any other code is handed back as
/// unsupported.
pub fn classify(message: &ArpMessage, timestamp: Timestamp) -> (event: Result<
    ArpEvent,
    UnsupportedOperation,
>)
    ensures
        event == classified(*message, timestamp),
{
    if message.operation == OPERATION_REQUEST {
        Ok(
            ArpEvent::Request {
                source: message.sender_protocol,
                dest: message.target_protocol,
                timestamp,
            },
        )
    } else if message.operation == OPERATION_REPLY {
        Ok(
            ArpEvent::Reply {
                replier_ip: message.sender_protocol,
                replier_mac: message.sender_hardware,
                destination_ip: message.target_protocol,
                timestamp,
            },
        )
    } else {
        Err(UnsupportedOperation { code: message.operation })
    }
}

/// A message is classified as an event exactly when its operation code is 1
/// or 2, and the kind of the event goes by the code.
pub proof fn lemma_classified_by_operation(message: ArpMessage, timestamp: Timestamp)
    ensures
        classified(message, timestamp) is Ok <==> (message.operation == 1 || message.operation
            == 2),
        message.operation == 1 ==> classified(message, timestamp)->Ok_0 is Request,
        message.operation == 2 ==> classified(message, timestamp)->Ok_0 is Reply,
        classified(message, timestamp) matches Ok(event) ==> event.spec_timestamp() == timestamp,
        classified(message, timestamp) matches Err(unsupported) ==> unsupported.code
            == message.operation,
{
}

} // verus!
