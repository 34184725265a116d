//! The ethertype dispatcher: from a frame to its report.

use vstd::prelude::*;

use crate::ethernet::{ethernet_accepts, protocol_for, protocol_of, EthernetFrame};
use crate::layout::{ethernet_ethertype, ethernet_payload};
use crate::logger::{log_ethernet_packet, log_report};
use crate::report::{FrameReport, ReportView};

verus! {

/// What dispatching a payload under an ethertype comes to: the report of the
/// decoder that the ethertype selects, or the notice that it selects none.
pub open spec fn dispatch_report(
    interface_name: Seq<char>,
    ethertype: nat,
    payload: Seq<u8>,
) -> ReportView {
    match protocol_of(ethertype) {
        Some(protocol) => log_report(protocol, interface_name, payload),
        None => ReportView::Unsupported,
    }
}

/// What processing a captured frame comes to: nothing where the buffer is too
/// short for an Ethernet header, else the report for its ethertype and
/// payload.
pub open spec fn frame_report(interface_name: Seq<char>, frame: Seq<u8>) -> Option<ReportView> {
    if ethernet_accepts(frame) {
        Some(dispatch_report(interface_name, ethernet_ethertype(frame), ethernet_payload(frame)))
    } else {
        None
    }
}

/// Routes the payload of an Ethernet frame to the decoder that its ethertype
/// selects. An ethertype other than those of IPv4, IPv6 and ARP is reported
/// as unsupported, whatever the payload holds.
pub fn dispatch(interface_name: &str, ethertype: u16, payload: &[u8]) -> (report: FrameReport)
    ensures
        report@ == dispatch_report(interface_name@, ethertype as nat, payload@),
        protocol_of(ethertype as nat) is None <==> report@ is Unsupported,
{
    match protocol_for(ethertype) {
        Some(protocol) => log_ethernet_packet(protocol, interface_name, payload),
        None => FrameReport::Unsupported,
    }
}

/// Decodes one captured frame seen on `interface_name`. Returns nothing where
/// the buffer is too short to hold an Ethernet header.
pub fn process_frame(interface_name: &str, frame: &[u8]) -> (report: Option<FrameReport>)
    ensures
        report.is_some() == ethernet_accepts(frame@),
        report matches Some(r) ==> Some(r@) == frame_report(interface_name@, frame@),
{
    match EthernetFrame::create(frame) {
        Some(ethernet) => Some(
            dispatch(interface_name, ethernet.get_ethertype(), ethernet.get_payload()),
        ),
        None => None,
    }
}

} // verus!
