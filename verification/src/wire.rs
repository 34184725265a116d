//! The packet views of `pnet`, and what this crate takes for granted of them.
//!
//! Nothing in this file is proved. Each function makes one call into `pnet`
//! (or, for the text of an IPv6 address, into the standard library) and
//! states what that call returns, over the bytes that the view was made from.
//! `pnet` makes a view of any buffer that is long enough; which of those
//! buffers hold a packet is decided in [`crate::packet`].

use pnet::packet::arp::ArpPacket;
use pnet::packet::ethernet::EthernetPacket;
use pnet::packet::ipv4::Ipv4Packet;
use pnet::packet::ipv6::Ipv6Packet;
use pnet::packet::tcp::TcpPacket;
use pnet::packet::Packet;
use pnet::util::core_net::Ipv6Addr;
use vstd::prelude::*;

use crate::layout::{
    arp_sender, arp_target, ethernet_ethertype, ethernet_payload, ipv4_destination,
    ipv4_header_words, ipv4_payload, ipv4_protocol, ipv4_source, ipv4_total_length,
    ipv6_destination, ipv6_next_header, ipv6_payload, ipv6_payload_length, ipv6_source,
    tcp_destination_port, tcp_source_port, ARP_HEADER_LEN, ETHERNET_HEADER_LEN, IPV4_HEADER_LEN,
    IPV6_HEADER_LEN, TCP_HEADER_LEN,
};

verus! {

#[verifier::external_type_specification]
#[verifier::external_body]
pub struct ExEthernetPacket<'a>(EthernetPacket<'a>);

#[verifier::external_type_specification]
#[verifier::external_body]
pub struct ExIpv4Packet<'a>(Ipv4Packet<'a>);

#[verifier::external_type_specification]
#[verifier::external_body]
pub struct ExIpv6Packet<'a>(Ipv6Packet<'a>);

#[verifier::external_type_specification]
#[verifier::external_body]
pub struct ExArpPacket<'a>(ArpPacket<'a>);

#[verifier::external_type_specification]
#[verifier::external_body]
pub struct ExTcpPacket<'a>(TcpPacket<'a>);

/// The bytes of the buffer that an Ethernet view was made from.
pub uninterp spec fn ethernet_bytes(view: EthernetPacket<'_>) -> Seq<u8>;

/// The bytes of the buffer that an IPv4 view was made from.
pub uninterp spec fn ipv4_bytes(view: Ipv4Packet<'_>) -> Seq<u8>;

/// The bytes of the buffer that an IPv6 view was made from.
pub uninterp spec fn ipv6_bytes(view: Ipv6Packet<'_>) -> Seq<u8>;

/// The bytes of the buffer that an ARP view was made from.
pub uninterp spec fn arp_bytes(view: ArpPacket<'_>) -> Seq<u8>;

/// The bytes of the buffer that a TCP view was made from.
pub uninterp spec fn tcp_bytes(view: TcpPacket<'_>) -> Seq<u8>;

/// The text that the standard library's `Display` gives the IPv6 address
/// with these sixteen octets, in network order.
pub uninterp spec fn ipv6_text(octets: Seq<u8>) -> Seq<char>;

/// `EthernetPacket::new`: a view over the whole buffer where the buffer holds
/// at least the fourteen octets of a header, and nothing otherwise.
#[verifier::external_body]
pub(crate) fn ethernet_new<'a>(buffer: &'a [u8]) -> (view: Option<EthernetPacket<'a>>)
    ensures
        view.is_some() == (buffer@.len() >= ETHERNET_HEADER_LEN),
        view matches Some(v) ==> ethernet_bytes(v) == buffer@,
{
    EthernetPacket::new(buffer)
}

/// `EthernetPacket::get_ethertype`, as its number: octets 12 and 13 of the
/// header, high octet first.
#[verifier::external_body]
pub(crate) fn ethernet_ethertype_of(view: &EthernetPacket<'_>) -> (ethertype: u16)
    ensures
        ethertype == ethernet_ethertype(ethernet_bytes(*view)),
{
    view.get_ethertype().0
}

/// `Packet::payload` of an Ethernet view: all that follows the header.
#[verifier::external_body]
pub(crate) fn ethernet_payload_of<'p, 'a>(view: &'p EthernetPacket<'a>) -> (payload: &'p [u8])
    ensures
        payload@ == ethernet_payload(ethernet_bytes(*view)),
{
    view.payload()
}

/// `Ipv4Packet::new`: a view over the whole buffer where the buffer holds at
/// least the twenty octets of a header without options, and nothing
/// otherwise. `pnet` examines no field of the header.
#[verifier::external_body]
pub(crate) fn ipv4_new<'a>(buffer: &'a [u8]) -> (view: Option<Ipv4Packet<'a>>)
    ensures
        view.is_some() == (buffer@.len() >= IPV4_HEADER_LEN),
        view matches Some(v) ==> ipv4_bytes(v) == buffer@,
{
    Ipv4Packet::new(buffer)
}

/// `Ipv4Packet::get_header_length`: the low four bits of octet 0, a number of
/// 32-bit words.
#[verifier::external_body]
pub(crate) fn ipv4_header_words_of(view: &Ipv4Packet<'_>) -> (words: u8)
    ensures
        words == ipv4_header_words(ipv4_bytes(*view)),
{
    view.get_header_length()
}

/// `Ipv4Packet::get_total_length`: octets 2 and 3 of the header, high octet
/// first.
#[verifier::external_body]
pub(crate) fn ipv4_total_length_of(view: &Ipv4Packet<'_>) -> (length: u16)
    ensures
        length == ipv4_total_length(ipv4_bytes(*view)),
{
    view.get_total_length()
}

/// `Ipv4Packet::get_next_level_protocol`, as its number: octet 9 of the
/// header.
#[verifier::external_body]
pub(crate) fn ipv4_protocol_of(view: &Ipv4Packet<'_>) -> (protocol: u8)
    ensures
        protocol == ipv4_protocol(ipv4_bytes(*view)),
{
    view.get_next_level_protocol().0
}

/// `Packet::payload` of an IPv4 view: the octets from the end of the declared
/// header to the declared total length, cut at the end of the buffer.
#[verifier::external_body]
pub(crate) fn ipv4_payload_of<'p, 'a>(view: &'p Ipv4Packet<'a>) -> (payload: &'p [u8])
    ensures
        payload@ == ipv4_payload(ipv4_bytes(*view)),
{
    view.payload()
}

/// `Ipv4Packet::get_source`, as its four octets in network order: octets 12
/// to 15 of the header.
#[verifier::external_body]
pub(crate) fn ipv4_source_of(view: &Ipv4Packet<'_>) -> (octets: [u8; 4])
    ensures
        octets@ == ipv4_source(ipv4_bytes(*view)),
{
    view.get_source().octets()
}

/// `Ipv4Packet::get_destination`, as its four octets in network order: octets
/// 16 to 19 of the header.
#[verifier::external_body]
pub(crate) fn ipv4_destination_of(view: &Ipv4Packet<'_>) -> (octets: [u8; 4])
    ensures
        octets@ == ipv4_destination(ipv4_bytes(*view)),
{
    view.get_destination().octets()
}

/// `Ipv6Packet::new`: a view over the whole buffer where the buffer holds at
/// least the forty octets of the fixed header, and nothing otherwise. `pnet`
/// examines no field of the header.
#[verifier::external_body]
pub(crate) fn ipv6_new<'a>(buffer: &'a [u8]) -> (view: Option<Ipv6Packet<'a>>)
    ensures
        view.is_some() == (buffer@.len() >= IPV6_HEADER_LEN),
        view matches Some(v) ==> ipv6_bytes(v) == buffer@,
{
    Ipv6Packet::new(buffer)
}

/// `Ipv6Packet::get_payload_length`: octets 4 and 5 of the header, high octet
/// first.
#[verifier::external_body]
pub(crate) fn ipv6_payload_length_of(view: &Ipv6Packet<'_>) -> (length: u16)
    ensures
        length == ipv6_payload_length(ipv6_bytes(*view)),
{
    view.get_payload_length()
}

/// `Ipv6Packet::get_next_header`, as its number: octet 6 of the header.
#[verifier::external_body]
pub(crate) fn ipv6_next_header_of(view: &Ipv6Packet<'_>) -> (protocol: u8)
    ensures
        protocol == ipv6_next_header(ipv6_bytes(*view)),
{
    view.get_next_header().0
}

/// `Packet::payload` of an IPv6 view: the octets after the fixed header, as
/// many as the payload length field declares, cut at the end of the buffer.
#[verifier::external_body]
pub(crate) fn ipv6_payload_of<'p, 'a>(view: &'p Ipv6Packet<'a>) -> (payload: &'p [u8])
    ensures
        payload@ == ipv6_payload(ipv6_bytes(*view)),
{
    view.payload()
}

/// `Ipv6Packet::get_source`, as its sixteen octets in network order: octets 8
/// to 23 of the header.
#[verifier::external_body]
pub(crate) fn ipv6_source_of(view: &Ipv6Packet<'_>) -> (octets: [u8; 16])
    ensures
        octets@ == ipv6_source(ipv6_bytes(*view)),
{
    view.get_source().octets()
}

/// `Ipv6Packet::get_destination`, as its sixteen octets in network order:
/// octets 24 to 39 of the header.
#[verifier::external_body]
pub(crate) fn ipv6_destination_of(view: &Ipv6Packet<'_>) -> (octets: [u8; 16])
    ensures
        octets@ == ipv6_destination(ipv6_bytes(*view)),
{
    view.get_destination().octets()
}

/// `ToString::to_string` of the `Ipv6Addr` with the given octets. The text
/// depends on the octets alone; which text it is, is left to the standard
/// library.
#[verifier::external_body]
pub(crate) fn ipv6_text_of(octets: [u8; 16]) -> (text: String)
    ensures
        text@ == ipv6_text(octets@),
{
    Ipv6Addr::from(octets).to_string()
}

/// `ArpPacket::new`: a view over the whole buffer where the buffer holds at
/// least the twenty-eight octets of an ARP packet for IPv4 over Ethernet, and
/// nothing otherwise. The two address-length fields are not examined.
#[verifier::external_body]
pub(crate) fn arp_new<'a>(buffer: &'a [u8]) -> (view: Option<ArpPacket<'a>>)
    ensures
        view.is_some() == (buffer@.len() >= ARP_HEADER_LEN),
        view matches Some(v) ==> arp_bytes(v) == buffer@,
{
    ArpPacket::new(buffer)
}

/// `Packet::payload` of an ARP view, which `pnet` declares with length zero:
/// always empty.
#[verifier::external_body]
pub(crate) fn arp_payload_of<'p, 'a>(view: &'p ArpPacket<'a>) -> (payload: &'p [u8])
    ensures
        payload@ == Seq::<u8>::empty(),
{
    view.payload()
}

/// `ArpPacket::get_sender_proto_addr`, as its four octets in network order:
/// octets 14 to 17 of the packet.
#[verifier::external_body]
pub(crate) fn arp_sender_of(view: &ArpPacket<'_>) -> (octets: [u8; 4])
    ensures
        octets@ == arp_sender(arp_bytes(*view)),
{
    view.get_sender_proto_addr().octets()
}

/// `ArpPacket::get_target_proto_addr`, as its four octets in network order:
/// octets 24 to 27 of the packet.
#[verifier::external_body]
pub(crate) fn arp_target_of(view: &ArpPacket<'_>) -> (octets: [u8; 4])
    ensures
        octets@ == arp_target(arp_bytes(*view)),
{
    view.get_target_proto_addr().octets()
}

/// `TcpPacket::new`: a view over the whole buffer where the buffer holds at
/// least the twenty octets of a header without options, and nothing
/// otherwise. No field of the header is examined.
#[verifier::external_body]
pub(crate) fn tcp_new<'a>(buffer: &'a [u8]) -> (view: Option<TcpPacket<'a>>)
    ensures
        view.is_some() == (buffer@.len() >= TCP_HEADER_LEN),
        view matches Some(v) ==> tcp_bytes(v) == buffer@,
{
    TcpPacket::new(buffer)
}

/// `TcpPacket::get_source`: octets 0 and 1 of the header, high octet first.
#[verifier::external_body]
pub(crate) fn tcp_source_of(view: &TcpPacket<'_>) -> (port: u16)
    ensures
        port == tcp_source_port(tcp_bytes(*view)),
{
    view.get_source()
}

/// `TcpPacket::get_destination`: octets 2 and 3 of the header, high octet
/// first.
#[verifier::external_body]
pub(crate) fn tcp_destination_of(view: &TcpPacket<'_>) -> (port: u16)
    ensures
        port == tcp_destination_port(tcp_bytes(*view)),
{
    view.get_destination()
}

} // verus!
