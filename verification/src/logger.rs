//! The frame logger: a network-layer decode, then a TCP decode of its
//! payload, then the log line.

use vstd::prelude::*;

use crate::layout::{tcp_destination_port, tcp_source_port};
use crate::packet::{
    accepts, carries_tcp, destination_text, payload_of, source_text, NetworkPacket,
    NetworkProtocol,
};
use crate::report::{format_log_line, log_line, FrameReport, ReportView};
use crate::transport::{tcp_accepts, TransportPacket};

verus! {

/// What logging the packet of `protocol` in `packet` comes to.
///
/// The report is a log line only where all of this holds: the buffer is
/// accepted as a packet of the protocol, its header names TCP as the protocol
/// of its payload, and the payload holds a TCP header. The line then has the
/// packet's two addresses and the two ports of that TCP header. Everything
/// else is a parse failure: a truncated or inconsistent packet, a payload of
/// another protocol, a TCP header cut short.
pub open spec fn log_report(
    protocol: NetworkProtocol,
    interface_name: Seq<char>,
    packet: Seq<u8>,
) -> ReportView {
    if accepts(protocol, packet) && carries_tcp(protocol, packet) && tcp_accepts(
        payload_of(protocol, packet),
    ) {
        ReportView::Logged(
            log_line(
                interface_name,
                source_text(protocol, packet),
                tcp_source_port(payload_of(protocol, packet)),
                destination_text(protocol, packet),
                tcp_destination_port(payload_of(protocol, packet)),
            ),
        )
    } else {
        ReportView::ParseFailure
    }
}

/// Decodes `packet`, the payload of an Ethernet frame seen on
/// `interface_name`, as a packet of `protocol` that carries TCP, and reports
/// the line to log or the failure to parse.
pub fn log_ethernet_packet(
    protocol: NetworkProtocol,
    interface_name: &str,
    packet: &[u8],
) -> (report: FrameReport)
    ensures
        report@ == log_report(protocol, interface_name@, packet@),
{
    match NetworkPacket::create(protocol, packet) {
        Some(ip_packet) => {
            if !ip_packet.carries_tcp() {
                return FrameReport::ParseFailure;
            }
            match TransportPacket::create(ip_packet.get_payload()) {
                Some(tcp_packet) => {
                    let source: String = ip_packet.get_source_addr();
                    let destination: String = ip_packet.get_destination_addr();
                    FrameReport::Logged(
                        format_log_line(
                            interface_name,
                            source.as_str(),
                            tcp_packet.get_source_port(),
                            destination.as_str(),
                            tcp_packet.get_destination_port(),
                        ),
                    )
                },
                None => FrameReport::ParseFailure,
            }
        },
        None => FrameReport::ParseFailure,
    }
}

} // verus!
