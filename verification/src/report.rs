//! What decoding one frame comes to: a log line, or one of two notices.

use vstd::prelude::*;
use vstd::string::*;

use crate::text::{decimal, decimal_text};

verus! {

/// The line for a TCP segment between two endpoints, seen on an interface:
/// `[<interface>]  <source> PORT <port> to  <destination> PORT <port>`.
pub open spec fn log_line(
    interface_name: Seq<char>,
    source: Seq<char>,
    source_port: nat,
    destination: Seq<char>,
    destination_port: nat,
) -> Seq<char> {
    "["@ + interface_name + "]  "@ + source + " PORT "@ + decimal(source_port) + " to  "@
        + destination + " PORT "@ + decimal(destination_port)
}

/// The notice for a frame whose network-layer or TCP header could not be
/// read.
pub open spec fn parse_failure_text() -> Seq<char> {
    "Unable to parse packet"@
}

/// The notice for a frame whose ethertype selects no decoder.
pub open spec fn unsupported_text() -> Seq<char> {
    "? Unsupported ethernet type"@
}

/// The model of a [`FrameReport`].
pub enum ReportView {
    /// A log line, with its text.
    Logged(Seq<char>),
    /// The network-layer or the TCP header could not be read.
    ParseFailure,
    /// The ethertype selects no decoder.
    Unsupported,
}

/// The text that a report stands for.
pub open spec fn report_text(report: ReportView) -> Seq<char> {
    match report {
        ReportView::Logged(line) => line,
        ReportView::ParseFailure => parse_failure_text(),
        ReportView::Unsupported => unsupported_text(),
    }
}

/// The outcome of decoding one frame.
#[derive(Debug)]
pub enum FrameReport {
    /// The frame carried a TCP segment: the line to log.
    Logged(String),
    /// The network-layer or the TCP header could not be read.
    ParseFailure,
    /// The ethertype selects no decoder.
    Unsupported,
}

impl View for FrameReport {
    type V = ReportView;

    open spec fn view(&self) -> ReportView {
        match self {
            FrameReport::Logged(line) => ReportView::Logged(line@),
            FrameReport::ParseFailure => ReportView::ParseFailure,
            FrameReport::Unsupported => ReportView::Unsupported,
        }
    }
}

impl FrameReport {
    /// The text to write for this report.
    pub fn message(&self) -> (text: String)
        ensures
            text@ == report_text(self@),
    {
        match self {
            FrameReport::Logged(line) => line.clone(),
            FrameReport::ParseFailure => String::from_str("Unable to parse packet"),
            FrameReport::Unsupported => String::from_str("? Unsupported ethernet type"),
        }
    }

    /// Whether the report is a diagnostic, which goes to the error stream.
    /// Only the notice of an unsupported ethertype is one.
    pub fn is_diagnostic(&self) -> (diagnostic: bool)
        ensures
            diagnostic == (self@ is Unsupported),
    {
        match self {
            FrameReport::Unsupported => true,
            _ => false,
        }
    }
}

/// Renders the log line for a TCP segment between two endpoints.
pub fn format_log_line(
    interface_name: &str,
    source: &str,
    source_port: u16,
    destination: &str,
    destination_port: u16,
) -> (line: String)
    ensures
        line@ == log_line(
            interface_name@,
            source@,
            source_port as nat,
            destination@,
            destination_port as nat,
        ),
{
    let mut line: String = String::from_str("[");
    line.append(interface_name);
    line.append("]  ");
    line.append(source);
    line.append(" PORT ");
    line.append(decimal_text(source_port).as_str());
    line.append(" to  ");
    line.append(destination);
    line.append(" PORT ");
    line.append(decimal_text(destination_port).as_str());
    line
}

} // verus!
