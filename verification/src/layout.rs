//! Header layouts of the decoded protocols, as functions on byte sequences.
//!
//! Every function takes the bytes of a buffer that starts with the header in
//! question. Offsets are in octets; multi-octet fields are big-endian.

use vstd::prelude::*;

verus! {

/// Octets in an Ethernet II header.
pub const ETHERNET_HEADER_LEN: usize = 14;

/// Octets in an IPv4 header without options.
pub const IPV4_HEADER_LEN: usize = 20;

/// Octets in the fixed IPv6 header.
pub const IPV6_HEADER_LEN: usize = 40;

/// Octets in an ARP packet for IPv4 over Ethernet.
pub const ARP_HEADER_LEN: usize = 28;

/// Octets in a TCP header without options.
pub const TCP_HEADER_LEN: usize = 20;

/// The 16-bit number whose high octet is `hi` and whose low octet is `lo`.
pub open spec fn be16(hi: u8, lo: u8) -> nat {
    (hi as nat) * 256 + (lo as nat)
}

/// The ethertype field of an Ethernet frame.
pub open spec fn ethernet_ethertype(frame: Seq<u8>) -> nat
    recommends
        frame.len() >= ETHERNET_HEADER_LEN,
{
    be16(frame[12], frame[13])
}

/// Everything that follows the Ethernet header; empty where the buffer ends
/// with the header.
pub open spec fn ethernet_payload(frame: Seq<u8>) -> Seq<u8>
    recommends
        frame.len() >= ETHERNET_HEADER_LEN,
{
    if frame.len() <= ETHERNET_HEADER_LEN {
        Seq::empty()
    } else {
        frame.skip(ETHERNET_HEADER_LEN as int)
    }
}

/// The number that IPv4 and IPv6 headers give TCP as the protocol of their
/// payload.
pub const IP_PROTOCOL_TCP: u8 = 6;

/// The header length field of an IPv4 header, in 32-bit words: the low half
/// of the first octet.
pub open spec fn ipv4_header_words(packet: Seq<u8>) -> nat
    recommends
        packet.len() >= IPV4_HEADER_LEN,
{
    (packet[0] % 16) as nat
}

/// The header length that an IPv4 header declares, in octets.
pub open spec fn ipv4_declared_header_len(packet: Seq<u8>) -> nat
    recommends
        packet.len() >= IPV4_HEADER_LEN,
{
    ipv4_header_words(packet) * 4
}

/// The protocol that an IPv4 header declares for its payload.
pub open spec fn ipv4_protocol(packet: Seq<u8>) -> u8
    recommends
        packet.len() >= IPV4_HEADER_LEN,
{
    packet[9]
}

/// The total length that an IPv4 header declares, header included.
pub open spec fn ipv4_total_length(packet: Seq<u8>) -> nat
    recommends
        packet.len() >= IPV4_HEADER_LEN,
{
    be16(packet[2], packet[3])
}

/// Where the payload of an IPv4 packet starts: after the declared header,
/// and never inside the first twenty octets.
pub open spec fn ipv4_payload_start(packet: Seq<u8>) -> nat
    recommends
        packet.len() >= IPV4_HEADER_LEN,
{
    if ipv4_declared_header_len(packet) > IPV4_HEADER_LEN {
        ipv4_declared_header_len(packet)
    } else {
        IPV4_HEADER_LEN as nat
    }
}

/// How many payload octets an IPv4 header declares: the total length less
/// the declared header length, and zero where that would be negative.
pub open spec fn ipv4_declared_payload_len(packet: Seq<u8>) -> nat
    recommends
        packet.len() >= IPV4_HEADER_LEN,
{
    if ipv4_total_length(packet) > ipv4_declared_header_len(packet) {
        (ipv4_total_length(packet) - ipv4_declared_header_len(packet)) as nat
    } else {
        0
    }
}

/// Where the payload of an IPv4 packet ends: the declared end, cut at the
/// end of the buffer.
pub open spec fn ipv4_payload_end(packet: Seq<u8>) -> nat
    recommends
        packet.len() >= IPV4_HEADER_LEN,
{
    let declared = ipv4_payload_start(packet) + ipv4_declared_payload_len(packet);
    if declared < packet.len() {
        declared
    } else {
        packet.len()
    }
}

/// The payload that a view of any twenty octets or more yields as an IPv4
/// packet, whatever its header declares; empty where the buffer ends at or
/// before the payload's start.
pub open spec fn ipv4_payload(packet: Seq<u8>) -> Seq<u8>
    recommends
        packet.len() >= IPV4_HEADER_LEN,
{
    if packet.len() <= ipv4_payload_start(packet) {
        Seq::empty()
    } else {
        packet.subrange(ipv4_payload_start(packet) as int, ipv4_payload_end(packet) as int)
    }
}

/// The source address of an IPv4 header.
pub open spec fn ipv4_source(packet: Seq<u8>) -> Seq<u8>
    recommends
        packet.len() >= IPV4_HEADER_LEN,
{
    packet.subrange(12, 16)
}

/// The destination address of an IPv4 header.
pub open spec fn ipv4_destination(packet: Seq<u8>) -> Seq<u8>
    recommends
        packet.len() >= IPV4_HEADER_LEN,
{
    packet.subrange(16, 20)
}

/// The next-header field of an IPv6 header: the protocol of what follows the
/// fixed header.
pub open spec fn ipv6_next_header(packet: Seq<u8>) -> u8
    recommends
        packet.len() >= IPV6_HEADER_LEN,
{
    packet[6]
}

/// The payload length that an IPv6 header declares.
pub open spec fn ipv6_payload_length(packet: Seq<u8>) -> nat
    recommends
        packet.len() >= IPV6_HEADER_LEN,
{
    be16(packet[4], packet[5])
}

/// Where the payload of an IPv6 packet ends: the declared end, cut at the
/// end of the buffer.
pub open spec fn ipv6_payload_end(packet: Seq<u8>) -> nat
    recommends
        packet.len() >= IPV6_HEADER_LEN,
{
    let declared = IPV6_HEADER_LEN + ipv6_payload_length(packet);
    if declared < packet.len() {
        declared as nat
    } else {
        packet.len()
    }
}

/// The payload that a view of any forty octets or more yields as an IPv6
/// packet: what follows the fixed header, as far as the declared payload
/// length and the buffer reach; empty where the buffer ends with the header.
pub open spec fn ipv6_payload(packet: Seq<u8>) -> Seq<u8>
    recommends
        packet.len() >= IPV6_HEADER_LEN,
{
    if packet.len() <= IPV6_HEADER_LEN {
        Seq::empty()
    } else {
        packet.subrange(IPV6_HEADER_LEN as int, ipv6_payload_end(packet) as int)
    }
}

/// The source address of an IPv6 header.
pub open spec fn ipv6_source(packet: Seq<u8>) -> Seq<u8>
    recommends
        packet.len() >= IPV6_HEADER_LEN,
{
    packet.subrange(8, 24)
}

/// The destination address of an IPv6 header.
pub open spec fn ipv6_destination(packet: Seq<u8>) -> Seq<u8>
    recommends
        packet.len() >= IPV6_HEADER_LEN,
{
    packet.subrange(24, 40)
}

/// The sender protocol address of an ARP packet.
pub open spec fn arp_sender(packet: Seq<u8>) -> Seq<u8>
    recommends
        packet.len() >= ARP_HEADER_LEN,
{
    packet.subrange(14, 18)
}

/// The target protocol address of an ARP packet.
pub open spec fn arp_target(packet: Seq<u8>) -> Seq<u8>
    recommends
        packet.len() >= ARP_HEADER_LEN,
{
    packet.subrange(24, 28)
}

/// The source port of a TCP header.
pub open spec fn tcp_source_port(segment: Seq<u8>) -> nat
    recommends
        segment.len() >= TCP_HEADER_LEN,
{
    be16(segment[0], segment[1])
}

/// The destination port of a TCP header.
pub open spec fn tcp_destination_port(segment: Seq<u8>) -> nat
    recommends
        segment.len() >= TCP_HEADER_LEN,
{
    be16(segment[2], segment[3])
}

} // verus!
