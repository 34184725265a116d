//! Decoding of captured Ethernet frames into one-line TCP endpoint reports.
//!
//! A frame's ethertype selects a network-layer decoder (IPv4, IPv6 or ARP);
//! the payload of the decoded packet is then read as a TCP header, and the
//! two addresses and two ports are rendered as one line of text. A frame that
//! cannot be decoded is reported by a notice, and never stops the capture.
//!
//! The headers are read by `pnet`, which makes a view of any buffer that is
//! long enough. What this crate relies on of `pnet` is stated in [`wire`],
//! over the header layouts of [`layout`]; everything else is proved. Whether
//! a buffer holds a packet is decided here: the lengths that a header declares
//! have to agree with the buffer, and only a header that names TCP leads to a
//! log line. Nothing here reads from a network or writes to a stream: the
//! caller hands in the bytes of a frame and gets back the text to write.
//!
//! - [`dispatch`]: from a captured frame, or an ethertype and a payload, to a
//!   report.
//! - [`logger`]: from a network-layer packet to its log line.
//! - [`packet`], [`transport`], [`ethernet`]: the views of the three layers.
//! - [`report`]: the reports and their text.
//! - [`text`]: decimal and dot-decimal rendering.
//! - [`startup`]: the choice of the interface and the banner.
//! - [`laws`]: what holds of every frame.

pub mod layout;
pub mod text;
pub mod wire;
pub mod packet;
pub mod transport;
pub mod ethernet;
pub mod report;
pub mod logger;
pub mod dispatch;
pub mod startup;
pub mod laws;
