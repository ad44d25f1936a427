//! The parts of an IPv4 header that the transport layer needs.

use vstd::prelude::*;

verus! {

/// The IPv4 protocol number of a packet's payload.
#[derive(Clone, Copy, Debug, PartialEq, Eq, Structural)]
pub enum Protocol {
    ICMP,
    TCP,
    UDP,
    Other(u8),
}

/// Owned IPv4 header fields that the transport layer reads.
#[derive(Clone, Copy, Debug, PartialEq, Eq, Structural)]
pub struct IPv4HeaderData {
    pub source: u32,
    pub destination: u32,
    pub protocol: Protocol,
    pub total_length: u16,
}

impl IPv4HeaderData {
    pub fn new(source: u32, destination: u32, protocol: Protocol, total_length: u16) -> (r: Self)
        ensures
            r.source == source,
            r.destination == destination,
            r.protocol == protocol,
            r.total_length == total_length,
    {
        IPv4HeaderData { source, destination, protocol, total_length }
    }

    pub fn source(&self) -> (r: u32)
        ensures
            r == self.source,
    {
        self.source
    }

    pub fn destination(&self) -> (r: u32)
        ensures
            r == self.destination,
    {
        self.destination
    }

    pub fn protocol(&self) -> (r: Protocol)
        ensures
            r == self.protocol,
    {
        self.protocol
    }

    pub fn total_length(&self) -> (r: u16)
        ensures
            r == self.total_length,
    {
        self.total_length
    }
}

} // verus!
