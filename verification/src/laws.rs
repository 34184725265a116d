//! What holds of every frame: the laws of decoding, proved from the
//! definitions of the reports.

use vstd::prelude::*;

use crate::dispatch::{dispatch_report, frame_report};
use crate::ethernet::{ETHERTYPE_ARP, ETHERTYPE_IPV4, ETHERTYPE_IPV6};
use crate::layout::{
    be16, ethernet_ethertype, ethernet_payload, ipv4_declared_header_len, ipv4_protocol,
    ipv4_total_length, ipv6_next_header, ipv6_payload_length, ETHERNET_HEADER_LEN,
    IPV4_HEADER_LEN, IPV6_HEADER_LEN, IP_PROTOCOL_TCP, TCP_HEADER_LEN,
};
use crate::logger::log_report;
use crate::packet::{
    accepts, carries_tcp, destination_text, header_len, payload_of, source_text,
    NetworkProtocol,
};
use crate::report::{log_line, report_text, FrameReport, ReportView};
use crate::text::dotted_decimal;
use crate::transport::tcp_accepts;
use crate::wire::ipv6_text;

verus! {

/// A packet is logged exactly where it is accepted, its header names TCP, and
/// its payload holds a TCP header; everything else is a parse failure.
pub proof fn lemma_logged_exactly_when(
    protocol: NetworkProtocol,
    interface_name: Seq<char>,
    packet: Seq<u8>,
)
    ensures
        log_report(protocol, interface_name, packet) is Logged <==> accepts(protocol, packet)
            && carries_tcp(protocol, packet) && tcp_accepts(payload_of(protocol, packet)),
        log_report(protocol, interface_name, packet) is Logged || log_report(
            protocol,
            interface_name,
            packet,
        ) == ReportView::ParseFailure,
{
}

/// An IPv4 packet with a TCP header right behind its header is logged with
/// its addresses in dot-decimal notation and the ports of that TCP header.
///
/// The packet's header declares `h` octets, at least twenty, and names TCP;
/// its total length covers a TCP header behind the `h` octets and lies within
/// the buffer. The addresses are octets 12 to 15 and 16 to 19, and the ports
/// are the two 16-bit numbers at offset `h`.
pub proof fn lemma_ipv4_tcp_packet_logged(interface_name: Seq<char>, packet: Seq<u8>)
    requires
        packet.len() >= IPV4_HEADER_LEN,
        ipv4_declared_header_len(packet) >= IPV4_HEADER_LEN,
        ipv4_protocol(packet) == IP_PROTOCOL_TCP,
        ipv4_total_length(packet) >= ipv4_declared_header_len(packet) + TCP_HEADER_LEN,
        packet.len() >= ipv4_total_length(packet),
    ensures
        ({
            let h = ipv4_declared_header_len(packet) as int;
            log_report(NetworkProtocol::Ipv4, interface_name, packet) == ReportView::Logged(
                log_line(
                    interface_name,
                    dotted_decimal(packet.subrange(12, 16)),
                    be16(packet[h], packet[h + 1]),
                    dotted_decimal(packet.subrange(16, 20)),
                    be16(packet[h + 2], packet[h + 3]),
                ),
            )
        }),
{
}

/// An Ethernet frame of ethertype IPv4 that carries such a packet is
/// processed into that log line.
pub proof fn lemma_ipv4_tcp_frame_logged(interface_name: Seq<char>, frame: Seq<u8>)
    requires
        frame.len() >= ETHERNET_HEADER_LEN + IPV4_HEADER_LEN,
        ethernet_ethertype(frame) == ETHERTYPE_IPV4,
        ipv4_declared_header_len(ethernet_payload(frame)) >= IPV4_HEADER_LEN,
        ipv4_protocol(ethernet_payload(frame)) == IP_PROTOCOL_TCP,
        ipv4_total_length(ethernet_payload(frame)) >= ipv4_declared_header_len(
            ethernet_payload(frame),
        ) + TCP_HEADER_LEN,
        frame.len() >= ETHERNET_HEADER_LEN + ipv4_total_length(ethernet_payload(frame)),
    ensures
        ({
            let t = ETHERNET_HEADER_LEN + ipv4_declared_header_len(ethernet_payload(frame));
            frame_report(interface_name, frame) == Some(
                ReportView::Logged(
                    log_line(
                        interface_name,
                        dotted_decimal(frame.subrange(26, 30)),
                        be16(frame[t], frame[t + 1]),
                        dotted_decimal(frame.subrange(30, 34)),
                        be16(frame[t + 2], frame[t + 3]),
                    ),
                ),
            )
        }),
{
    let packet = frame.skip(14);
    assert(ethernet_payload(frame) == packet);
    lemma_ipv4_tcp_packet_logged(interface_name, packet);
    assert(packet.subrange(12, 16) =~= frame.subrange(26, 30));
    assert(packet.subrange(16, 20) =~= frame.subrange(30, 34));
}

/// An IPv6 packet with a TCP header right behind its fixed header is logged
/// with the text of its two addresses and the ports of that TCP header.
///
/// The header names TCP as the next header; the declared payload length
/// covers a TCP header and lies within the buffer. The addresses are octets 8
/// to 23 and 24 to 39, and the ports are the two 16-bit numbers at offset 40.
pub proof fn lemma_ipv6_tcp_packet_logged(interface_name: Seq<char>, packet: Seq<u8>)
    requires
        packet.len() >= IPV6_HEADER_LEN,
        ipv6_next_header(packet) == IP_PROTOCOL_TCP,
        ipv6_payload_length(packet) >= TCP_HEADER_LEN,
        packet.len() >= IPV6_HEADER_LEN + ipv6_payload_length(packet),
    ensures
        log_report(NetworkProtocol::Ipv6, interface_name, packet) == ReportView::Logged(
            log_line(
                interface_name,
                ipv6_text(packet.subrange(8, 24)),
                be16(packet[40], packet[41]),
                ipv6_text(packet.subrange(24, 40)),
                be16(packet[42], packet[43]),
            ),
        ),
{
}

/// An Ethernet frame of ethertype IPv6 that carries such a packet is
/// processed into that log line.
pub proof fn lemma_ipv6_tcp_frame_logged(interface_name: Seq<char>, frame: Seq<u8>)
    requires
        frame.len() >= ETHERNET_HEADER_LEN + IPV6_HEADER_LEN,
        ethernet_ethertype(frame) == ETHERTYPE_IPV6,
        ipv6_next_header(ethernet_payload(frame)) == IP_PROTOCOL_TCP,
        ipv6_payload_length(ethernet_payload(frame)) >= TCP_HEADER_LEN,
        frame.len() >= ETHERNET_HEADER_LEN + IPV6_HEADER_LEN + ipv6_payload_length(
            ethernet_payload(frame),
        ),
    ensures
        frame_report(interface_name, frame) == Some(
            ReportView::Logged(
                log_line(
                    interface_name,
                    ipv6_text(frame.subrange(22, 38)),
                    be16(frame[54], frame[55]),
                    ipv6_text(frame.subrange(38, 54)),
                    be16(frame[56], frame[57]),
                ),
            ),
        ),
{
    let packet = frame.skip(14);
    assert(ethernet_payload(frame) == packet);
    lemma_ipv6_tcp_packet_logged(interface_name, packet);
    assert(packet.subrange(8, 24) =~= frame.subrange(22, 38));
    assert(packet.subrange(24, 40) =~= frame.subrange(38, 54));
}

/// An IPv4 packet whose declared lengths disagree with the buffer is not
/// accepted: a declared header of less than twenty octets, a total length
/// that does not cover the declared header, or a total length beyond the end
/// of the buffer.
pub proof fn lemma_ipv4_inconsistent_lengths_rejected(
    interface_name: Seq<char>,
    packet: Seq<u8>,
)
    requires
        ipv4_declared_header_len(packet) < IPV4_HEADER_LEN || ipv4_total_length(packet)
            < ipv4_declared_header_len(packet) || packet.len() < ipv4_total_length(packet),
    ensures
        !accepts(NetworkProtocol::Ipv4, packet),
        log_report(NetworkProtocol::Ipv4, interface_name, packet) == ReportView::ParseFailure,
{
}

/// An IPv6 packet that declares more payload than the buffer holds behind the
/// fixed header is not accepted.
pub proof fn lemma_ipv6_truncated_payload_rejected(interface_name: Seq<char>, packet: Seq<u8>)
    requires
        packet.len() < IPV6_HEADER_LEN + ipv6_payload_length(packet),
    ensures
        !accepts(NetworkProtocol::Ipv6, packet),
        log_report(NetworkProtocol::Ipv6, interface_name, packet) == ReportView::ParseFailure,
{
}

/// An IPv6 packet whose declared payload ends within the buffer is accepted,
/// whatever else its header holds.
pub proof fn lemma_ipv6_fitting_payload_accepted(packet: Seq<u8>)
    requires
        packet.len() >= IPV6_HEADER_LEN + ipv6_payload_length(packet),
    ensures
        accepts(NetworkProtocol::Ipv6, packet),
{
}

/// A packet whose header names another protocol than TCP is never logged,
/// however much its payload may look like a TCP header.
pub proof fn lemma_other_protocol_never_logged(
    protocol: NetworkProtocol,
    interface_name: Seq<char>,
    packet: Seq<u8>,
)
    requires
        !carries_tcp(protocol, packet),
    ensures
        log_report(protocol, interface_name, packet) == ReportView::ParseFailure,
{
}

/// The addresses of an ARP packet are its sender and target protocol
/// addresses, octets 14 to 17 and 24 to 27, in dot-decimal notation.
pub proof fn lemma_arp_addresses(packet: Seq<u8>)
    ensures
        source_text(NetworkProtocol::Arp, packet) == dotted_decimal(packet.subrange(14, 18)),
        destination_text(NetworkProtocol::Arp, packet) == dotted_decimal(packet.subrange(24, 28)),
{
}

/// ARP carries no transport layer: no ARP packet is ever logged, whatever
/// follows it in the buffer.
pub proof fn lemma_arp_never_logged(interface_name: Seq<char>, packet: Seq<u8>)
    ensures
        log_report(NetworkProtocol::Arp, interface_name, packet) == ReportView::ParseFailure,
        dispatch_report(interface_name, ETHERTYPE_ARP as nat, packet) == ReportView::ParseFailure,
{
}

/// An Ethernet frame of ethertype ARP is processed into the parse-failure
/// notice.
pub proof fn lemma_arp_frame_never_logged(interface_name: Seq<char>, frame: Seq<u8>)
    requires
        frame.len() >= ETHERNET_HEADER_LEN,
        ethernet_ethertype(frame) == ETHERTYPE_ARP,
    ensures
        frame_report(interface_name, frame) == Some(ReportView::ParseFailure),
{
}

/// A buffer shorter than the header of the protocol it is read as is not
/// accepted, and is reported as a parse failure.
pub proof fn lemma_short_buffer_rejected(
    protocol: NetworkProtocol,
    interface_name: Seq<char>,
    packet: Seq<u8>,
)
    requires
        packet.len() < header_len(protocol),
    ensures
        !accepts(protocol, packet),
        log_report(protocol, interface_name, packet) == ReportView::ParseFailure,
{
}

/// An accepted packet whose payload is shorter than a TCP header is reported
/// as a parse failure.
pub proof fn lemma_short_payload_rejected(
    protocol: NetworkProtocol,
    interface_name: Seq<char>,
    packet: Seq<u8>,
)
    requires
        payload_of(protocol, packet).len() < TCP_HEADER_LEN,
    ensures
        log_report(protocol, interface_name, packet) == ReportView::ParseFailure,
{
}

/// An ethertype other than those of IPv4, IPv6 and ARP is reported as
/// unsupported, whatever the payload; and only such an ethertype is.
pub proof fn lemma_unsupported_ethertype(
    interface_name: Seq<char>,
    ethertype: nat,
    payload: Seq<u8>,
)
    ensures
        (ethertype != ETHERTYPE_IPV4 && ethertype != ETHERTYPE_IPV6 && ethertype != ETHERTYPE_ARP)
            <==> dispatch_report(interface_name, ethertype, payload) == ReportView::Unsupported,
{
}

/// Decoding is a function of the interface name, the ethertype and the bytes:
/// two reports of the same payload under the same ethertype are the same
/// report, with the same text.
pub proof fn lemma_dispatch_deterministic(
    first: FrameReport,
    second: FrameReport,
    interface_name: Seq<char>,
    ethertype: nat,
    payload: Seq<u8>,
)
    requires
        first@ == dispatch_report(interface_name, ethertype, payload),
        second@ == dispatch_report(interface_name, ethertype, payload),
    ensures
        first@ == second@,
        report_text(first@) == report_text(second@),
{
}

} // verus!
