//! UDP header codec: owned fields, and views over a header in a buffer.

use vstd::prelude::*;
use crate::checksum::{checksum_is_valid, write_checksum, with_word, checksum_of, transport_sum};
use crate::ipv4_header::IPv4HeaderData;
use crate::tcp_header::{be16, read_be16, with_ports, write_be16, write_ports};

verus! {

/// A UDP header is always eight bytes long.
pub const UDP_HEADER_LENGTH: u8 = 8;

/// Offset of the length field in a UDP header.
pub const UDP_LENGTH_OFFSET: usize = 4;

/// Offset of the checksum field in a UDP header.
pub const UDP_CHECKSUM_OFFSET: usize = 6;

/// The IP protocol number of UDP.
pub const UDP_PROTOCOL_NUMBER: u8 = 17;

/// A byte region that holds a whole UDP header at its start.
pub open spec fn udp_header_fits(raw: Seq<u8>) -> bool {
    raw.len() >= UDP_HEADER_LENGTH
}

/// Owned snapshot of the UDP header fields this relay reads.
#[derive(Clone, Copy, Debug, PartialEq, Eq, Structural)]
pub struct UDPHeaderData {
    pub source_port: u16,
    pub destination_port: u16,
}

/// The fields that a UDP header in `raw` holds.
pub open spec fn udp_data_of(raw: Seq<u8>) -> UDPHeaderData {
    UDPHeaderData { source_port: be16(raw, 0), destination_port: be16(raw, 2) }
}

/// Read-only view of a UDP header in a buffer, with its owned fields.
pub struct UDPHeader<'a> {
    pub raw: &'a [u8],
    pub data: &'a UDPHeaderData,
}

/// Writable view of a UDP header in a buffer, with its owned fields.
pub struct UDPHeaderMut<'a> {
    pub raw: &'a mut [u8],
    pub data: &'a mut UDPHeaderData,
}

impl UDPHeaderData {
    /// The fields with source and destination exchanged.
    pub open spec fn swapped(self) -> UDPHeaderData {
        UDPHeaderData { source_port: self.destination_port, destination_port: self.source_port }
    }

    /// `raw` starts with a whole header whose fields are these.
    pub open spec fn agrees(self, raw: Seq<u8>) -> bool {
        &&& udp_header_fits(raw)
        &&& udp_data_of(raw) == self
    }

    pub fn parse(raw: &[u8]) -> (r: UDPHeaderData)
        requires
            udp_header_fits(raw@),
        ensures
            r == udp_data_of(raw@),
            r.agrees(raw@),
    {
        UDPHeaderData { source_port: read_be16(raw, 0), destination_port: read_be16(raw, 2) }
    }

    pub fn bind<'c, 'a: 'c, 'b: 'c>(&'a self, raw: &'b [u8]) -> (r: UDPHeader<'c>)
        ensures
            r.raw@ == raw@,
            *r.data == *self,
    {
        UDPHeader { raw, data: self }
    }

    pub fn bind_mut<'c, 'a: 'c, 'b: 'c>(&'a mut self, raw: &'b mut [u8]) -> (r: UDPHeaderMut<'c>)
        ensures
            r.raw@ == old(raw)@,
            *r.data == *old(self),
            final(raw)@ == final(r.raw)@,
            *final(self) == *final(r.data),
    {
        UDPHeaderMut { raw, data: self }
    }

    pub fn source_port(&self) -> (r: u16)
        ensures
            r == self.source_port,
    {
        self.source_port
    }

    pub fn destination_port(&self) -> (r: u16)
        ensures
            r == self.destination_port,
    {
        self.destination_port
    }
}

impl<'a> UDPHeader<'a> {
    pub fn raw(&self) -> (r: &[u8])
        ensures
            r@ == self.raw@,
    {
        self.raw
    }

    pub fn data(&self) -> (r: &UDPHeaderData)
        ensures
            *r == *self.data,
    {
        self.data
    }
}

impl<'a> UDPHeaderMut<'a> {
    /// The bytes of the buffer as they stand.
    pub open spec fn raw_view(&self) -> Seq<u8> {
        self.raw@
    }

    /// The owned fields as they stand.
    pub open spec fn data_view(&self) -> UDPHeaderData {
        *self.data
    }

    pub fn raw(&self) -> (r: &[u8])
        ensures
            r@ == self.raw_view(),
    {
        self.raw
    }

    pub fn data(&self) -> (r: &UDPHeaderData)
        ensures
            *r == self.data_view(),
    {
        self.data
    }

    pub fn raw_mut(&mut self) -> (r: &mut [u8])
        ensures
            r@ == old(self).raw@,
            final(self).raw@ == final(r)@,
            *final(self).data == *old(self).data,
            final(final(self).raw)@ == final(old(self).raw)@,
            *final(final(self).data) == *final(old(self).data),
    {
        self.raw
    }

    /// Exchanges the source and destination ports of the fields, and writes
    /// the exchanged ports into the buffer.
    pub fn swap_source_and_destination(&mut self)
        requires
            old(self).raw@.len() >= 4,
        ensures
            final(self).raw@ == with_ports(
                old(self).raw@,
                old(self).data.destination_port,
                old(self).data.source_port,
            ),
            *final(self).data == old(self).data.swapped(),
            final(final(self).raw)@ == final(old(self).raw)@,
            *final(final(self).data) == *final(old(self).data),
    {
        let d = *self.data;
        write_ports(self.raw, d.destination_port, d.source_port);
        *self.data = UDPHeaderData { source_port: d.destination_port, destination_port: d.source_port };
    }

    /// Stores `payload_length` plus the header length in the length field.
    pub fn set_payload_length(&mut self, payload_length: u16)
        requires
            old(self).raw@.len() >= UDP_HEADER_LENGTH,
            payload_length <= 65535 - UDP_HEADER_LENGTH,
        ensures
            final(self).raw@ == with_word(
                old(self).raw@,
                UDP_LENGTH_OFFSET as int,
                (payload_length + UDP_HEADER_LENGTH) as nat,
            ),
            be16(final(self).raw@, UDP_LENGTH_OFFSET as int) == payload_length + UDP_HEADER_LENGTH,
            *final(self).data == *old(self).data,
            final(final(self).raw)@ == final(old(self).raw)@,
            *final(final(self).data) == *final(old(self).data),
    {
        write_be16(self.raw, UDP_LENGTH_OFFSET, payload_length + UDP_HEADER_LENGTH as u16);
    }

    /// Recomputes the UDP checksum over this header and `payload`.
    pub fn update_checksum(&mut self, ipv4_header_data: &IPv4HeaderData, payload: &[u8])
        requires
            old(self).raw@.len() >= UDP_HEADER_LENGTH,
            UDP_HEADER_LENGTH + payload@.len() <= 65535,
        ensures
            final(self).raw@ == with_word(
                with_word(old(self).raw@, UDP_CHECKSUM_OFFSET as int, 0),
                UDP_CHECKSUM_OFFSET as int,
                checksum_of(
                    transport_sum(
                        ipv4_header_data.source,
                        ipv4_header_data.destination,
                        UDP_PROTOCOL_NUMBER as nat,
                        with_word(old(self).raw@, UDP_CHECKSUM_OFFSET as int, 0).subrange(
                            0,
                            UDP_HEADER_LENGTH as int,
                        ) + payload@,
                    ),
                ),
            ),
            checksum_is_valid(
                ipv4_header_data.source,
                ipv4_header_data.destination,
                UDP_PROTOCOL_NUMBER as nat,
                final(self).raw@.subrange(0, UDP_HEADER_LENGTH as int) + payload@,
            ),
            *final(self).data == *old(self).data,
            final(final(self).raw)@ == final(old(self).raw)@,
            *final(final(self).data) == *final(old(self).data),
    {
        write_checksum(
            self.raw,
            UDP_HEADER_LENGTH as usize,
            UDP_CHECKSUM_OFFSET,
            payload,
            ipv4_header_data.source,
            ipv4_header_data.destination,
            UDP_PROTOCOL_NUMBER,
        );
    }
}

} // verus!
