//! The network-layer packet: one type for the three protocols that carry
//! addresses, with the same four operations on each.

use pnet::packet::arp::ArpPacket;
use pnet::packet::ipv4::Ipv4Packet;
use pnet::packet::ipv6::Ipv6Packet;
use vstd::prelude::*;

use crate::layout::{
    arp_sender, arp_target, ipv4_declared_header_len, ipv4_destination, ipv4_protocol,
    ipv4_source, ipv4_total_length, ipv6_destination, ipv6_next_header, ipv6_payload_length,
    ipv6_source, ARP_HEADER_LEN, IPV4_HEADER_LEN, IPV6_HEADER_LEN, IP_PROTOCOL_TCP,
};
use crate::text::{dotted_decimal, dotted_decimal_text};
use crate::wire::{
    arp_bytes, arp_new, arp_payload_of, arp_sender_of, arp_target_of, ipv4_bytes,
    ipv4_destination_of, ipv4_header_words_of, ipv4_new, ipv4_payload_of, ipv4_protocol_of,
    ipv4_source_of, ipv4_total_length_of, ipv6_bytes, ipv6_destination_of, ipv6_new,
    ipv6_next_header_of, ipv6_payload_length_of, ipv6_payload_of, ipv6_source_of, ipv6_text,
    ipv6_text_of,
};

verus! {

/// The network-layer protocols that can be decoded.
#[derive(Clone, Copy, Debug, PartialEq, Eq, Structural)]
pub enum NetworkProtocol {
    Ipv4,
    Ipv6,
    Arp,
}

/// The least number of octets that a packet of `protocol` has.
pub open spec fn header_len(protocol: NetworkProtocol) -> nat {
    match protocol {
        NetworkProtocol::Ipv4 => IPV4_HEADER_LEN as nat,
        NetworkProtocol::Ipv6 => IPV6_HEADER_LEN as nat,
        NetworkProtocol::Arp => ARP_HEADER_LEN as nat,
    }
}

/// Whether `buffer` is long enough for the header of `protocol`.
pub open spec fn holds_header(protocol: NetworkProtocol, buffer: Seq<u8>) -> bool {
    buffer.len() >= header_len(protocol)
}

/// Whether the lengths that the header declares agree with the buffer.
///
/// An IPv4 header declares its own length, which is at least twenty octets,
/// and a total length, which covers the header and lies within the buffer.
/// An IPv6 header declares the length of its payload, which lies within the
/// buffer behind the fixed header. An ARP packet declares no length.
pub open spec fn lengths_agree(protocol: NetworkProtocol, buffer: Seq<u8>) -> bool
    recommends
        holds_header(protocol, buffer),
{
    match protocol {
        NetworkProtocol::Ipv4 => IPV4_HEADER_LEN <= ipv4_declared_header_len(buffer)
            <= ipv4_total_length(buffer) <= buffer.len(),
        NetworkProtocol::Ipv6 => IPV6_HEADER_LEN + ipv6_payload_length(buffer) <= buffer.len(),
        NetworkProtocol::Arp => true,
    }
}

/// Whether `buffer` can be read as a packet of `protocol`: it holds the
/// protocol's header, and the lengths that the header declares agree with
/// the buffer. Octets behind the declared end are allowed.
pub open spec fn accepts(protocol: NetworkProtocol, buffer: Seq<u8>) -> bool {
    holds_header(protocol, buffer) && lengths_agree(protocol, buffer)
}

/// The payload of the packet of `protocol` that `buffer` starts with: for
/// IPv4 the octets from the end of the declared header to the declared total
/// length, for IPv6 as many octets behind the fixed header as the header
/// declares. An ARP packet carries none.
pub open spec fn payload_of(protocol: NetworkProtocol, buffer: Seq<u8>) -> Seq<u8>
    recommends
        accepts(protocol, buffer),
{
    match protocol {
        NetworkProtocol::Ipv4 => buffer.subrange(
            ipv4_declared_header_len(buffer) as int,
            ipv4_total_length(buffer) as int,
        ),
        NetworkProtocol::Ipv6 => buffer.subrange(
            IPV6_HEADER_LEN as int,
            IPV6_HEADER_LEN + ipv6_payload_length(buffer),
        ),
        NetworkProtocol::Arp => Seq::empty(),
    }
}

/// Whether the header names TCP as the protocol of its payload: the protocol
/// field of IPv4, the next-header field of IPv6. ARP carries no transport
/// protocol at all.
pub open spec fn carries_tcp(protocol: NetworkProtocol, buffer: Seq<u8>) -> bool
    recommends
        accepts(protocol, buffer),
{
    match protocol {
        NetworkProtocol::Ipv4 => ipv4_protocol(buffer) == IP_PROTOCOL_TCP,
        NetworkProtocol::Ipv6 => ipv6_next_header(buffer) == IP_PROTOCOL_TCP,
        NetworkProtocol::Arp => false,
    }
}

/// The octets of the source address; for ARP, of the sender protocol address.
pub open spec fn source_octets(protocol: NetworkProtocol, buffer: Seq<u8>) -> Seq<u8>
    recommends
        accepts(protocol, buffer),
{
    match protocol {
        NetworkProtocol::Ipv4 => ipv4_source(buffer),
        NetworkProtocol::Ipv6 => ipv6_source(buffer),
        NetworkProtocol::Arp => arp_sender(buffer),
    }
}

/// The octets of the destination address; for ARP, of the target protocol
/// address.
pub open spec fn destination_octets(protocol: NetworkProtocol, buffer: Seq<u8>) -> Seq<u8>
    recommends
        accepts(protocol, buffer),
{
    match protocol {
        NetworkProtocol::Ipv4 => ipv4_destination(buffer),
        NetworkProtocol::Ipv6 => ipv6_destination(buffer),
        NetworkProtocol::Arp => arp_target(buffer),
    }
}

/// The text of an address of `protocol`: dot-decimal for the four octets of
/// IPv4 and ARP, the standard library's rendering for the sixteen of IPv6.
pub open spec fn address_text(protocol: NetworkProtocol, octets: Seq<u8>) -> Seq<char> {
    match protocol {
        NetworkProtocol::Ipv4 => dotted_decimal(octets),
        NetworkProtocol::Ipv6 => ipv6_text(octets),
        NetworkProtocol::Arp => dotted_decimal(octets),
    }
}

/// The source address of the packet in `buffer`, as text.
pub open spec fn source_text(protocol: NetworkProtocol, buffer: Seq<u8>) -> Seq<char>
    recommends
        accepts(protocol, buffer),
{
    address_text(protocol, source_octets(protocol, buffer))
}

/// The destination address of the packet in `buffer`, as text.
pub open spec fn destination_text(protocol: NetworkProtocol, buffer: Seq<u8>) -> Seq<char>
    recommends
        accepts(protocol, buffer),
{
    address_text(protocol, destination_octets(protocol, buffer))
}

enum PacketView<'a> {
    Ipv4(Ipv4Packet<'a>),
    Ipv6(Ipv6Packet<'a>),
    Arp(ArpPacket<'a>),
}

/// A read-only view of a buffer as an IPv4, IPv6 or ARP packet.
///
/// The view borrows the buffer and copies nothing. Its model is the pair of
/// [`protocol`](Self::protocol) and [`bytes`](Self::bytes).
pub struct NetworkPacket<'a> {
    view: PacketView<'a>,
}

impl<'a> NetworkPacket<'a> {
    /// The protocol that the buffer is read as.
    pub closed spec fn protocol(&self) -> NetworkProtocol {
        match self.view {
            PacketView::Ipv4(_) => NetworkProtocol::Ipv4,
            PacketView::Ipv6(_) => NetworkProtocol::Ipv6,
            PacketView::Arp(_) => NetworkProtocol::Arp,
        }
    }

    /// The bytes of the buffer that the view was made from.
    pub closed spec fn bytes(&self) -> Seq<u8> {
        match self.view {
            PacketView::Ipv4(v) => ipv4_bytes(v),
            PacketView::Ipv6(v) => ipv6_bytes(v),
            PacketView::Arp(v) => arp_bytes(v),
        }
    }

    /// Every view stands on a buffer that holds its protocol's header, with
    /// declared lengths that agree with the buffer.
    #[verifier::type_invariant]
    pub open spec fn well_formed(&self) -> bool {
        accepts(self.protocol(), self.bytes())
    }

    /// Reads `packet` as a packet of `protocol`. Succeeds exactly where the
    /// buffer holds the protocol's header and the lengths that the header
    /// declares agree with the buffer; a truncated or otherwise inconsistent
    /// packet yields nothing.
    pub fn create(protocol: NetworkProtocol, packet: &'a [u8]) -> (created: Option<Self>)
        ensures
            created.is_some() == accepts(protocol, packet@),
            created matches Some(p) ==> p.protocol() == protocol && p.bytes() == packet@,
    {
        match protocol {
            NetworkProtocol::Ipv4 => match ipv4_new(packet) {
                Some(v) => {
                    let header: usize = (ipv4_header_words_of(&v) as usize) * 4;
                    let total: usize = ipv4_total_length_of(&v) as usize;
                    if IPV4_HEADER_LEN <= header && header <= total && total <= packet.len() {
                        Some(NetworkPacket { view: PacketView::Ipv4(v) })
                    } else {
                        None
                    }
                },
                None => None,
            },
            NetworkProtocol::Ipv6 => match ipv6_new(packet) {
                Some(v) => {
                    let declared: usize = ipv6_payload_length_of(&v) as usize;
                    if declared <= packet.len() - IPV6_HEADER_LEN {
                        Some(NetworkPacket { view: PacketView::Ipv6(v) })
                    } else {
                        None
                    }
                },
                None => None,
            },
            NetworkProtocol::Arp => match arp_new(packet) {
                Some(v) => Some(NetworkPacket { view: PacketView::Arp(v) }),
                None => None,
            },
        }
    }

    /// The protocol that the buffer is read as.
    pub fn get_protocol(&self) -> (protocol: NetworkProtocol)
        ensures
            protocol == self.protocol(),
    {
        match &self.view {
            PacketView::Ipv4(_) => NetworkProtocol::Ipv4,
            PacketView::Ipv6(_) => NetworkProtocol::Ipv6,
            PacketView::Arp(_) => NetworkProtocol::Arp,
        }
    }

    /// Whether the header names TCP as the protocol of its payload.
    pub fn carries_tcp(&self) -> (tcp: bool)
        ensures
            tcp == carries_tcp(self.protocol(), self.bytes()),
    {
        match &self.view {
            PacketView::Ipv4(v) => ipv4_protocol_of(v) == IP_PROTOCOL_TCP,
            PacketView::Ipv6(v) => ipv6_next_header_of(v) == IP_PROTOCOL_TCP,
            PacketView::Arp(_) => false,
        }
    }

    /// The bytes that follow the header, borrowed from the buffer: as many as
    /// the header declares, and none of what may lie behind them.
    pub fn get_payload(&self) -> (payload: &[u8])
        ensures
            payload@ == payload_of(self.protocol(), self.bytes()),
            payload@.len() + header_len(self.protocol()) <= self.bytes().len(),
    {
        proof {
            use_type_invariant(self);
        }
        match &self.view {
            PacketView::Ipv4(v) => {
                let payload: &[u8] = ipv4_payload_of(v);
                assert(payload@ =~= payload_of(NetworkProtocol::Ipv4, ipv4_bytes(*v)));
                payload
            },
            PacketView::Ipv6(v) => {
                let payload: &[u8] = ipv6_payload_of(v);
                assert(payload@ =~= payload_of(NetworkProtocol::Ipv6, ipv6_bytes(*v)));
                payload
            },
            PacketView::Arp(v) => arp_payload_of(v),
        }
    }

    /// The source address as text.
    pub fn get_source_addr(&self) -> (text: String)
        ensures
            text@ == source_text(self.protocol(), self.bytes()),
    {
        match &self.view {
            PacketView::Ipv4(v) => {
                let octets: [u8; 4] = ipv4_source_of(v);
                dotted_decimal_text(&octets)
            },
            PacketView::Ipv6(v) => ipv6_text_of(ipv6_source_of(v)),
            PacketView::Arp(v) => {
                let octets: [u8; 4] = arp_sender_of(v);
                dotted_decimal_text(&octets)
            },
        }
    }

    /// The destination address as text.
    pub fn get_destination_addr(&self) -> (text: String)
        ensures
            text@ == destination_text(self.protocol(), self.bytes()),
    {
        match &self.view {
            PacketView::Ipv4(v) => {
                let octets: [u8; 4] = ipv4_destination_of(v);
                dotted_decimal_text(&octets)
            },
            PacketView::Ipv6(v) => ipv6_text_of(ipv6_destination_of(v)),
            PacketView::Arp(v) => {
                let octets: [u8; 4] = arp_target_of(v);
                dotted_decimal_text(&octets)
            },
        }
    }
}

} // verus!
