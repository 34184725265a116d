//! The transport-layer packet: a TCP header, read for its two ports.

use pnet::packet::tcp::TcpPacket;
use vstd::prelude::*;

use crate::layout::{tcp_destination_port, tcp_source_port, TCP_HEADER_LEN};
use crate::wire::{tcp_bytes, tcp_destination_of, tcp_new, tcp_source_of};

verus! {

/// Whether `buffer` can be read as a TCP segment: it holds at least a header
/// without options.
pub open spec fn tcp_accepts(buffer: Seq<u8>) -> bool {
    buffer.len() >= TCP_HEADER_LEN
}

/// A read-only view of a buffer as a TCP segment.
///
/// Its model is [`bytes`](Self::bytes), the buffer it was made from.
pub struct TransportPacket<'a> {
    view: TcpPacket<'a>,
}

impl<'a> TransportPacket<'a> {
    /// The bytes of the buffer that the view was made from.
    pub closed spec fn bytes(&self) -> Seq<u8> {
        tcp_bytes(self.view)
    }

    /// Every view stands on a buffer that holds a TCP header.
    #[verifier::type_invariant]
    pub open spec fn header_present(&self) -> bool {
        tcp_accepts(self.bytes())
    }

    /// Reads `segment` as a TCP segment. Succeeds exactly where the buffer
    /// holds a header without options; nothing tells a TCP header from other
    /// bytes of that length.
    pub fn create(segment: &'a [u8]) -> (created: Option<Self>)
        ensures
            created.is_some() == tcp_accepts(segment@),
            created matches Some(t) ==> t.bytes() == segment@,
    {
        match tcp_new(segment) {
            Some(v) => Some(TransportPacket { view: v }),
            None => None,
        }
    }

    /// The source port.
    pub fn get_source_port(&self) -> (port: u16)
        ensures
            port == tcp_source_port(self.bytes()),
    {
        tcp_source_of(&self.view)
    }

    /// The destination port.
    pub fn get_destination_port(&self) -> (port: u16)
        ensures
            port == tcp_destination_port(self.bytes()),
    {
        tcp_destination_of(&self.view)
    }
}

} // verus!
