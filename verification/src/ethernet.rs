//! The link-layer frame: an Ethernet II header, read for its ethertype, and
//! the ethertypes that select a network-layer decoder.

use pnet::packet::ethernet::EthernetPacket;
use vstd::prelude::*;

use crate::layout::{ethernet_ethertype, ethernet_payload, ETHERNET_HEADER_LEN};
use crate::packet::NetworkProtocol;
use crate::wire::{ethernet_bytes, ethernet_ethertype_of, ethernet_new, ethernet_payload_of};

verus! {

/// The ethertype of IPv4.
pub const ETHERTYPE_IPV4: u16 = 0x0800;

/// The ethertype of ARP.
pub const ETHERTYPE_ARP: u16 = 0x0806;

/// The ethertype of IPv6.
pub const ETHERTYPE_IPV6: u16 = 0x86DD;

/// The decoder that an ethertype selects, if any.
pub open spec fn protocol_of(ethertype: nat) -> Option<NetworkProtocol> {
    if ethertype == ETHERTYPE_IPV4 {
        Some(NetworkProtocol::Ipv4)
    } else if ethertype == ETHERTYPE_IPV6 {
        Some(NetworkProtocol::Ipv6)
    } else if ethertype == ETHERTYPE_ARP {
        Some(NetworkProtocol::Arp)
    } else {
        None
    }
}

/// Selects the decoder for an ethertype. The ethertype is taken at its word:
/// nothing of the payload is looked at.
pub fn protocol_for(ethertype: u16) -> (protocol: Option<NetworkProtocol>)
    ensures
        protocol == protocol_of(ethertype as nat),
{
    if ethertype == ETHERTYPE_IPV4 {
        Some(NetworkProtocol::Ipv4)
    } else if ethertype == ETHERTYPE_IPV6 {
        Some(NetworkProtocol::Ipv6)
    } else if ethertype == ETHERTYPE_ARP {
        Some(NetworkProtocol::Arp)
    } else {
        None
    }
}

/// Whether `buffer` can be read as an Ethernet frame: it holds at least the
/// header.
pub open spec fn ethernet_accepts(buffer: Seq<u8>) -> bool {
    buffer.len() >= ETHERNET_HEADER_LEN
}

/// A read-only view of a captured buffer as an Ethernet frame.
///
/// Its model is [`bytes`](Self::bytes), the buffer it was made from.
pub struct EthernetFrame<'a> {
    view: EthernetPacket<'a>,
}

impl<'a> EthernetFrame<'a> {
    /// The bytes of the buffer that the view was made from.
    pub closed spec fn bytes(&self) -> Seq<u8> {
        ethernet_bytes(self.view)
    }

    /// Every view stands on a buffer that holds an Ethernet header.
    #[verifier::type_invariant]
    pub open spec fn header_present(&self) -> bool {
        ethernet_accepts(self.bytes())
    }

    /// Reads `frame` as an Ethernet frame. Succeeds exactly where the buffer
    /// holds the fourteen octets of a header.
    pub fn create(frame: &'a [u8]) -> (created: Option<Self>)
        ensures
            created.is_some() == ethernet_accepts(frame@),
            created matches Some(f) ==> f.bytes() == frame@,
    {
        match ethernet_new(frame) {
            Some(v) => Some(EthernetFrame { view: v }),
            None => None,
        }
    }

    /// The ethertype that the header declares.
    pub fn get_ethertype(&self) -> (ethertype: u16)
        ensures
            ethertype == ethernet_ethertype(self.bytes()),
    {
        ethernet_ethertype_of(&self.view)
    }

    /// The bytes that follow the header, borrowed from the buffer.
    pub fn get_payload(&self) -> (payload: &[u8])
        ensures
            payload@ == ethernet_payload(self.bytes()),
            payload@.len() + ETHERNET_HEADER_LEN == self.bytes().len(),
    {
        proof {
            use_type_invariant(self);
        }
        ethernet_payload_of(&self.view)
    }
}

} // verus!
