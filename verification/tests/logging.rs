use frame_logger::dispatch::{dispatch, process_frame};
use frame_logger::ethernet::{ETHERTYPE_ARP, ETHERTYPE_IPV4, ETHERTYPE_IPV6};
use frame_logger::logger::log_ethernet_packet;
use frame_logger::packet::NetworkProtocol;
use frame_logger::report::FrameReport;

const INTERFACE: &str = "br-f8888a63c67d";

fn tcp_header(source_port: u16, destination_port: u16) -> Vec<u8> {
    let mut header = vec![0u8; 20];
    header[0..2].copy_from_slice(&source_port.to_be_bytes());
    header[2..4].copy_from_slice(&destination_port.to_be_bytes());
    header[12] = 0x50;
    header
}

fn ipv4_header(source: [u8; 4], destination: [u8; 4], total_length: u16) -> Vec<u8> {
    let mut header = vec![0u8; 20];
    header[0] = 0x45;
    header[2..4].copy_from_slice(&total_length.to_be_bytes());
    header[8] = 64;
    header[9] = 6;
    header[12..16].copy_from_slice(&source);
    header[16..20].copy_from_slice(&destination);
    header
}

fn ipv6_header(source: [u8; 16], destination: [u8; 16], payload_length: u16) -> Vec<u8> {
    let mut header = vec![0u8; 40];
    header[0] = 0x60;
    header[4..6].copy_from_slice(&payload_length.to_be_bytes());
    header[6] = 6;
    header[7] = 64;
    header[8..24].copy_from_slice(&source);
    header[24..40].copy_from_slice(&destination);
    header
}

fn arp_packet(sender: [u8; 4], target: [u8; 4]) -> Vec<u8> {
    let mut packet = vec![0u8; 28];
    packet[1] = 1;
    packet[2] = 0x08;
    packet[4] = 6;
    packet[5] = 4;
    packet[7] = 1;
    packet[8..14].copy_from_slice(&[0x02, 0x00, 0x00, 0x00, 0x00, 0x01]);
    packet[14..18].copy_from_slice(&sender);
    packet[24..28].copy_from_slice(&target);
    packet
}

fn ethernet_frame(ethertype: u16, payload: &[u8]) -> Vec<u8> {
    let mut frame = vec![0xaau8; 12];
    frame.extend_from_slice(&ethertype.to_be_bytes());
    frame.extend_from_slice(payload);
    frame
}

fn ipv4_tcp_packet() -> Vec<u8> {
    let mut packet = ipv4_header([10, 0, 0, 1], [10, 0, 0, 2], 40);
    packet.extend_from_slice(&tcp_header(443, 51000));
    packet
}

const V6_SOURCE: [u8; 16] = [0x20, 0x01, 0x0d, 0xb8, 0, 0, 0, 0, 0, 0, 0, 0, 0, 0, 0, 1];
const V6_DESTINATION: [u8; 16] =
    [0xfe, 0x80, 0, 0, 0, 0, 0, 0, 0x02, 0x11, 0x22, 0xff, 0xfe, 0x33, 0x44, 0x55];

fn ipv6_tcp_packet() -> Vec<u8> {
    let mut packet = ipv6_header(V6_SOURCE, V6_DESTINATION, 20);
    packet.extend_from_slice(&tcp_header(8080, 22));
    packet
}

#[test]
fn ipv4_tcp_packet_is_logged() {
    let report = log_ethernet_packet(NetworkProtocol::Ipv4, INTERFACE, &ipv4_tcp_packet());
    assert!(matches!(report, FrameReport::Logged(_)));
    assert!(!report.is_diagnostic());
    assert_eq!(
        report.message(),
        "[br-f8888a63c67d]  10.0.0.1 PORT 443 to  10.0.0.2 PORT 51000"
    );
}

#[test]
fn ipv4_tcp_frame_is_logged_through_dispatch() {
    let report = dispatch(INTERFACE, ETHERTYPE_IPV4, &ipv4_tcp_packet());
    assert_eq!(
        report.message(),
        "[br-f8888a63c67d]  10.0.0.1 PORT 443 to  10.0.0.2 PORT 51000"
    );
    let frame = ethernet_frame(0x0800, &ipv4_tcp_packet());
    let report = process_frame(INTERFACE, &frame).unwrap();
    assert_eq!(
        report.message(),
        "[br-f8888a63c67d]  10.0.0.1 PORT 443 to  10.0.0.2 PORT 51000"
    );
}

#[test]
fn truncated_tcp_header_is_a_parse_failure() {
    let mut packet = ipv4_header([10, 0, 0, 1], [10, 0, 0, 2], 30);
    packet.extend_from_slice(&[0u8; 10]);
    let report = log_ethernet_packet(NetworkProtocol::Ipv4, INTERFACE, &packet);
    assert!(matches!(report, FrameReport::ParseFailure));
    assert!(!report.is_diagnostic());
    assert_eq!(report.message(), "Unable to parse packet");
    let report = dispatch(INTERFACE, ETHERTYPE_IPV4, &packet);
    assert_eq!(report.message(), "Unable to parse packet");
}

#[test]
fn total_length_beyond_the_buffer_is_a_parse_failure() {
    // The header declares forty octets; the buffer ends one short of them.
    let mut packet = ipv4_header([10, 0, 0, 1], [10, 0, 0, 2], 40);
    packet.extend_from_slice(&tcp_header(443, 51000)[..19]);
    let report = log_ethernet_packet(NetworkProtocol::Ipv4, INTERFACE, &packet);
    assert!(matches!(report, FrameReport::ParseFailure));

    // Far beyond: a whole TCP header is there, but the packet is cut short.
    let mut packet = ipv4_header([10, 0, 0, 1], [10, 0, 0, 2], 1500);
    packet.extend_from_slice(&tcp_header(443, 51000));
    let report = log_ethernet_packet(NetworkProtocol::Ipv4, INTERFACE, &packet);
    assert!(matches!(report, FrameReport::ParseFailure));
    let report = dispatch(INTERFACE, ETHERTYPE_IPV4, &packet);
    assert_eq!(report.message(), "Unable to parse packet");
}

#[test]
fn inconsistent_ipv4_header_is_a_parse_failure() {
    // A declared header of sixteen octets.
    let mut packet = ipv4_tcp_packet();
    packet[0] = 0x44;
    let report = log_ethernet_packet(NetworkProtocol::Ipv4, INTERFACE, &packet);
    assert!(matches!(report, FrameReport::ParseFailure));

    // A total length that does not cover the declared header.
    let mut packet = ipv4_tcp_packet();
    packet[0] = 0x46;
    packet[3] = 23;
    let report = log_ethernet_packet(NetworkProtocol::Ipv4, INTERFACE, &packet);
    assert!(matches!(report, FrameReport::ParseFailure));

    // All zero.
    let report = log_ethernet_packet(NetworkProtocol::Ipv4, INTERFACE, &[0u8; 40]);
    assert!(matches!(report, FrameReport::ParseFailure));
}

#[test]
fn ipv4_total_length_ends_the_payload() {
    // Twenty octets follow the header, but the packet ends after ten of
    // them: too few for a TCP header.
    let mut packet = ipv4_header([10, 0, 0, 1], [10, 0, 0, 2], 30);
    packet.extend_from_slice(&tcp_header(443, 51000));
    let report = log_ethernet_packet(NetworkProtocol::Ipv4, INTERFACE, &packet);
    assert!(matches!(report, FrameReport::ParseFailure));
}

#[test]
fn ipv4_options_move_the_tcp_header() {
    let mut packet = ipv4_header([192, 168, 1, 20], [8, 8, 8, 8], 44);
    packet[0] = 0x46;
    packet.extend_from_slice(&[1, 1, 1, 0]);
    packet.extend_from_slice(&tcp_header(65535, 0));
    let report = log_ethernet_packet(NetworkProtocol::Ipv4, "eth0", &packet);
    assert_eq!(report.message(), "[eth0]  192.168.1.20 PORT 65535 to  8.8.8.8 PORT 0");
}

#[test]
fn ipv4_trailing_bytes_are_ignored() {
    let mut packet = ipv4_tcp_packet();
    packet.extend_from_slice(&[0xffu8; 6]);
    let report = log_ethernet_packet(NetworkProtocol::Ipv4, INTERFACE, &packet);
    assert_eq!(
        report.message(),
        "[br-f8888a63c67d]  10.0.0.1 PORT 443 to  10.0.0.2 PORT 51000"
    );
}

#[test]
fn payload_that_is_not_tcp_is_a_parse_failure() {
    // A UDP datagram with ports 53 and 33000 and twenty octets of data: long
    // enough for a TCP header, and not one.
    let mut packet = ipv4_header([10, 0, 0, 1], [10, 0, 0, 2], 48);
    packet[9] = 17;
    packet.extend_from_slice(&[0, 53, 0x80, 0xe8, 0, 28, 0, 0]);
    packet.extend_from_slice(&[0u8; 20]);
    let report = log_ethernet_packet(NetworkProtocol::Ipv4, INTERFACE, &packet);
    assert!(matches!(report, FrameReport::ParseFailure));
    assert_eq!(report.message(), "Unable to parse packet");
    let report = dispatch(INTERFACE, ETHERTYPE_IPV4, &packet);
    assert_eq!(report.message(), "Unable to parse packet");

    // The same octets under the protocol number of TCP are a log line.
    packet[9] = 6;
    let report = log_ethernet_packet(NetworkProtocol::Ipv4, INTERFACE, &packet);
    assert_eq!(
        report.message(),
        "[br-f8888a63c67d]  10.0.0.1 PORT 53 to  10.0.0.2 PORT 33000"
    );

    // ICMP, and every other number next to that of TCP.
    for protocol in [0u8, 1, 5, 7, 17, 58, 255] {
        let mut packet = ipv4_tcp_packet();
        packet[9] = protocol;
        let report = log_ethernet_packet(NetworkProtocol::Ipv4, INTERFACE, &packet);
        assert!(matches!(report, FrameReport::ParseFailure));
    }
}

#[test]
fn ipv6_next_header_that_is_not_tcp_is_a_parse_failure() {
    for next_header in [0u8, 5, 7, 17, 43, 44, 58, 59, 255] {
        let mut packet = ipv6_tcp_packet();
        packet[6] = next_header;
        let report = log_ethernet_packet(NetworkProtocol::Ipv6, INTERFACE, &packet);
        assert!(matches!(report, FrameReport::ParseFailure));
        assert_eq!(report.message(), "Unable to parse packet");
    }
    let report = process_frame(INTERFACE, &ethernet_frame(0x86dd, &ipv6_tcp_packet())).unwrap();
    assert!(matches!(report, FrameReport::Logged(_)));
}

#[test]
fn ipv6_payload_length_beyond_the_buffer_is_a_parse_failure() {
    let mut packet = ipv6_header(V6_SOURCE, V6_DESTINATION, 21);
    packet.extend_from_slice(&tcp_header(8080, 22));
    let report = log_ethernet_packet(NetworkProtocol::Ipv6, INTERFACE, &packet);
    assert!(matches!(report, FrameReport::ParseFailure));

    // One octet more and the declared payload is all there.
    packet.push(0);
    let report = log_ethernet_packet(NetworkProtocol::Ipv6, INTERFACE, &packet);
    assert_eq!(
        report.message(),
        "[br-f8888a63c67d]  2001:db8::1 PORT 8080 to  fe80::211:22ff:fe33:4455 PORT 22"
    );
}

#[test]
fn ipv6_trailing_bytes_are_ignored() {
    let mut packet = ipv6_tcp_packet();
    packet.extend_from_slice(&[0xffu8; 9]);
    let report = log_ethernet_packet(NetworkProtocol::Ipv6, INTERFACE, &packet);
    assert_eq!(
        report.message(),
        "[br-f8888a63c67d]  2001:db8::1 PORT 8080 to  fe80::211:22ff:fe33:4455 PORT 22"
    );
}

#[test]
fn ipv6_tcp_packet_is_logged() {
    let report = log_ethernet_packet(NetworkProtocol::Ipv6, INTERFACE, &ipv6_tcp_packet());
    assert_eq!(
        report.message(),
        "[br-f8888a63c67d]  2001:db8::1 PORT 8080 to  fe80::211:22ff:fe33:4455 PORT 22"
    );
}

#[test]
fn ipv6_tcp_frame_is_logged_through_dispatch() {
    let report = dispatch(INTERFACE, ETHERTYPE_IPV6, &ipv6_tcp_packet());
    assert_eq!(
        report.message(),
        "[br-f8888a63c67d]  2001:db8::1 PORT 8080 to  fe80::211:22ff:fe33:4455 PORT 22"
    );
    let frame = ethernet_frame(0x86dd, &ipv6_tcp_packet());
    let report = process_frame(INTERFACE, &frame).unwrap();
    assert_eq!(
        report.message(),
        "[br-f8888a63c67d]  2001:db8::1 PORT 8080 to  fe80::211:22ff:fe33:4455 PORT 22"
    );
}

#[test]
fn ipv6_payload_length_ends_the_payload() {
    let mut packet = ipv6_header(V6_SOURCE, V6_DESTINATION, 19);
    packet.extend_from_slice(&tcp_header(8080, 22));
    let report = log_ethernet_packet(NetworkProtocol::Ipv6, INTERFACE, &packet);
    assert_eq!(report.message(), "Unable to parse packet");
}

#[test]
fn ipv6_truncated_tcp_header_is_a_parse_failure() {
    let mut packet = ipv6_header(V6_SOURCE, V6_DESTINATION, 20);
    packet.extend_from_slice(&[0u8; 10]);
    let report = log_ethernet_packet(NetworkProtocol::Ipv6, INTERFACE, &packet);
    assert!(matches!(report, FrameReport::ParseFailure));
}

#[test]
fn arp_is_never_logged() {
    let packet = arp_packet([192, 168, 0, 1], [192, 168, 0, 7]);
    let report = log_ethernet_packet(NetworkProtocol::Arp, INTERFACE, &packet);
    assert!(matches!(report, FrameReport::ParseFailure));
    assert_eq!(report.message(), "Unable to parse packet");

    // Not even with a TCP header's worth of bytes behind it.
    let mut padded = packet.clone();
    padded.extend_from_slice(&tcp_header(443, 51000));
    let report = log_ethernet_packet(NetworkProtocol::Arp, INTERFACE, &padded);
    assert!(matches!(report, FrameReport::ParseFailure));
    let report = dispatch(INTERFACE, ETHERTYPE_ARP, &padded);
    assert_eq!(report.message(), "Unable to parse packet");
    let report = process_frame(INTERFACE, &ethernet_frame(0x0806, &padded)).unwrap();
    assert_eq!(report.message(), "Unable to parse packet");
}

#[test]
fn short_buffers_are_parse_failures() {
    for protocol in [NetworkProtocol::Ipv4, NetworkProtocol::Ipv6, NetworkProtocol::Arp] {
        let report = log_ethernet_packet(protocol, INTERFACE, &[]);
        assert!(matches!(report, FrameReport::ParseFailure));
        let report = log_ethernet_packet(protocol, INTERFACE, &ipv4_tcp_packet()[..19]);
        assert!(matches!(report, FrameReport::ParseFailure));
    }
    let report = log_ethernet_packet(NetworkProtocol::Ipv6, INTERFACE, &ipv6_tcp_packet()[..39]);
    assert!(matches!(report, FrameReport::ParseFailure));
}

#[test]
fn unsupported_ethertype_is_reported() {
    let packet = ipv4_tcp_packet();
    for ethertype in [0x0000u16, 0x0801, 0x0805, 0x0807, 0x8035, 0x8100, 0x86dc, 0x86de, 0xffff] {
        let report = dispatch(INTERFACE, ethertype, &packet);
        assert!(matches!(report, FrameReport::Unsupported));
        assert!(report.is_diagnostic());
        assert_eq!(report.message(), "? Unsupported ethernet type");
    }
    let frame = ethernet_frame(0x8100, &packet);
    let report = process_frame(INTERFACE, &frame).unwrap();
    assert!(matches!(report, FrameReport::Unsupported));
    assert_eq!(report.message(), "? Unsupported ethernet type");
}

#[test]
fn ethertype_is_taken_at_its_word() {
    // An IPv4 packet declared as IPv6 is read as IPv6: too short for it.
    let report = dispatch(INTERFACE, ETHERTYPE_IPV6, &ipv4_tcp_packet()[..39]);
    assert_eq!(report.message(), "Unable to parse packet");
    // An IPv6 packet declared as IPv4 is read as IPv4: its first octet then
    // declares a header of no length.
    let report = dispatch(INTERFACE, ETHERTYPE_IPV4, &ipv6_tcp_packet());
    assert!(matches!(report, FrameReport::ParseFailure));
}

#[test]
fn frame_shorter_than_an_ethernet_header_yields_nothing() {
    assert!(process_frame(INTERFACE, &[]).is_none());
    assert!(process_frame(INTERFACE, &[0u8; 13]).is_none());
    let report = process_frame(INTERFACE, &ethernet_frame(0x0800, &[])).unwrap();
    assert_eq!(report.message(), "Unable to parse packet");
    let report = process_frame(INTERFACE, &ethernet_frame(0x1234, &[])).unwrap();
    assert_eq!(report.message(), "? Unsupported ethernet type");
}

#[test]
fn decoding_twice_gives_the_same_report() {
    let buffers: [Vec<u8>; 4] = [
        ipv4_tcp_packet(),
        ipv6_tcp_packet(),
        arp_packet([1, 2, 3, 4], [5, 6, 7, 8]),
        vec![0u8; 7],
    ];
    for ethertype in [ETHERTYPE_IPV4, ETHERTYPE_IPV6, ETHERTYPE_ARP, 0x9000] {
        for buffer in buffers.iter() {
            let first = dispatch(INTERFACE, ethertype, buffer);
            let second = dispatch(INTERFACE, ethertype, &buffer.clone());
            assert_eq!(first.message(), second.message());
            assert_eq!(first.is_diagnostic(), second.is_diagnostic());
        }
    }
}

#[test]
fn interface_name_is_copied_verbatim() {
    let report = log_ethernet_packet(NetworkProtocol::Ipv4, "", &ipv4_tcp_packet());
    assert_eq!(report.message(), "[]  10.0.0.1 PORT 443 to  10.0.0.2 PORT 51000");
    let report = log_ethernet_packet(NetworkProtocol::Ipv4, "wlan0 [x]", &ipv4_tcp_packet());
    assert_eq!(report.message(), "[wlan0 [x]]  10.0.0.1 PORT 443 to  10.0.0.2 PORT 51000");
}
