//! TCP header codec: owned fields, and views over a header in a buffer.

use vstd::prelude::*;
use crate::checksum::{checksum_is_valid, checksum_of, transport_sum, with_word, write_checksum};
use crate::ipv4_header::IPv4HeaderData;

verus! {

/// Smallest TCP header: a data offset of five 32-bit words.
pub const TCP_MIN_HEADER_LENGTH: usize = 20;

/// Offset of the checksum field in a TCP header.
pub const TCP_CHECKSUM_OFFSET: usize = 16;

/// The IP protocol number of TCP.
pub const TCP_PROTOCOL_NUMBER: u8 = 6;

/// The big-endian 16-bit value at byte `i` of `b`.
pub open spec fn be16(b: Seq<u8>, i: int) -> u16 {
    (b[i] as nat * 256 + b[i + 1] as nat) as u16
}

/// `b` with `source` and `destination` stored in its two port fields.
pub open spec fn with_ports(b: Seq<u8>, source: u16, destination: u16) -> Seq<u8> {
    with_word(with_word(b, 0, source as nat), 2, destination as nat)
}

/// The header length that the data offset field (high nibble of byte 12) gives.
pub open spec fn tcp_header_length_of(raw: Seq<u8>) -> nat {
    (raw[12] / 16) as nat * 4
}

/// A byte region that holds a whole, well-formed TCP header at its start.
pub open spec fn tcp_header_fits(raw: Seq<u8>) -> bool {
    &&& raw.len() >= TCP_MIN_HEADER_LENGTH
    &&& raw[12] / 16 >= 5
    &&& raw.len() >= tcp_header_length_of(raw)
}

/// Owned snapshot of the TCP header fields this relay reads.
#[derive(Clone, Copy, Debug, PartialEq, Eq, Structural)]
pub struct TCPHeaderData {
    pub source_port: u16,
    pub destination_port: u16,
    pub header_length: u8,
}

/// The fields that a TCP header in `raw` holds.
pub open spec fn tcp_data_of(raw: Seq<u8>) -> TCPHeaderData {
    TCPHeaderData {
        source_port: be16(raw, 0),
        destination_port: be16(raw, 2),
        header_length: tcp_header_length_of(raw) as u8,
    }
}

/// Read-only view of a TCP header in a buffer, with its owned fields.
pub struct TCPHeader<'a> {
    pub raw: &'a [u8],
    pub data: &'a TCPHeaderData,
}

/// Writable view of a TCP header in a buffer, with its owned fields.
pub struct TCPHeaderMut<'a> {
    pub raw: &'a mut [u8],
    pub data: &'a mut TCPHeaderData,
}

/// Reads the big-endian 16-bit value at byte `i`.
pub fn read_be16(raw: &[u8], i: usize) -> (r: u16)
    requires
        i + 1 < raw@.len(),
    ensures
        r == be16(raw@, i as int),
{
    (raw[i] as u16) * 256 + raw[i + 1] as u16
}

/// Writes `w` big-endian at byte `i`.
pub fn write_be16(raw: &mut [u8], i: usize, w: u16)
    requires
        i + 1 < old(raw)@.len(),
    ensures
        final(raw)@ == with_word(old(raw)@, i as int, w as nat),
        be16(final(raw)@, i as int) == w,
{
    raw[i] = (w / 256) as u8;
    raw[i + 1] = (w % 256) as u8;
}

/// Stores `source` and `destination` in the two port fields of `raw`.
pub fn write_ports(raw: &mut [u8], source: u16, destination: u16)
    requires
        old(raw)@.len() >= 4,
    ensures
        final(raw)@ == with_ports(old(raw)@, source, destination),
        be16(final(raw)@, 0) == source,
        be16(final(raw)@, 2) == destination,
{
    write_be16(raw, 0, source);
    write_be16(raw, 2, destination);
}

impl TCPHeaderData {
    /// The fields with source and destination exchanged.
    pub open spec fn swapped(self) -> TCPHeaderData {
        TCPHeaderData { source_port: self.destination_port, destination_port: self.source_port, ..self }
    }

    /// The header length is a multiple of four within 20 to 60.
    pub open spec fn wf(self) -> bool {
        20 <= self.header_length <= 60 && self.header_length % 4 == 0
    }

    /// `raw` starts with a whole header whose fields are these.
    pub open spec fn agrees(self, raw: Seq<u8>) -> bool {
        &&& self.wf()
        &&& raw.len() >= self.header_length
        &&& tcp_data_of(raw) == self
    }

    pub fn parse(raw: &[u8]) -> (r: TCPHeaderData)
        requires
            tcp_header_fits(raw@),
        ensures
            r == tcp_data_of(raw@),
            r.agrees(raw@),
    {
        let data_offset: u8 = raw[12] / 16;
        TCPHeaderData {
            source_port: read_be16(raw, 0),
            destination_port: read_be16(raw, 2),
            header_length: data_offset * 4,
        }
    }

    pub fn bind<'c, 'a: 'c, 'b: 'c>(&'a self, raw: &'b [u8]) -> (r: TCPHeader<'c>)
        ensures
            r.raw@ == raw@,
            *r.data == *self,
    {
        TCPHeader { raw, data: self }
    }

    pub fn bind_mut<'c, 'a: 'c, 'b: 'c>(&'a mut self, raw: &'b mut [u8]) -> (r: TCPHeaderMut<'c>)
        ensures
            r.raw@ == old(raw)@,
            *r.data == *old(self),
            final(raw)@ == final(r.raw)@,
            *final(self) == *final(r.data),
    {
        TCPHeaderMut { raw, data: self }
    }

    pub fn source_port(&self) -> (r: u16)
        ensures
            r == self.source_port,
    {
        self.source_port
    }

    pub fn destination_port(&self) -> (r: u16)
        ensures
            r == self.destination_port,
    {
        self.destination_port
    }

    pub fn header_length(&self) -> (r: u8)
        ensures
            r == self.header_length,
    {
        self.header_length
    }
}

impl<'a> TCPHeader<'a> {
    pub fn raw(&self) -> (r: &[u8])
        ensures
            r@ == self.raw@,
    {
        self.raw
    }

    pub fn data(&self) -> (r: &TCPHeaderData)
        ensures
            *r == *self.data,
    {
        self.data
    }
}

impl<'a> TCPHeaderMut<'a> {
    /// The bytes of the buffer as they stand.
    pub open spec fn raw_view(&self) -> Seq<u8> {
        self.raw@
    }

    /// The owned fields as they stand.
    pub open spec fn data_view(&self) -> TCPHeaderData {
        *self.data
    }

    pub fn raw(&self) -> (r: &[u8])
        ensures
            r@ == self.raw_view(),
    {
        self.raw
    }

    pub fn data(&self) -> (r: &TCPHeaderData)
        ensures
            *r == self.data_view(),
    {
        self.data
    }

    pub fn raw_mut(&mut self) -> (r: &mut [u8])
        ensures
            r@ == old(self).raw@,
            final(self).raw@ == final(r)@,
            *final(self).data == *old(self).data,
            final(final(self).raw)@ == final(old(self).raw)@,
            *final(final(self).data) == *final(old(self).data),
    {
        self.raw
    }

    /// Exchanges the source and destination ports of the fields, and writes
    /// the exchanged ports into the buffer.
    pub fn swap_source_and_destination(&mut self)
        requires
            old(self).raw@.len() >= 4,
        ensures
            final(self).raw@ == with_ports(
                old(self).raw@,
                old(self).data.destination_port,
                old(self).data.source_port,
            ),
            *final(self).data == old(self).data.swapped(),
            final(final(self).raw)@ == final(old(self).raw)@,
            *final(final(self).data) == *final(old(self).data),
    {
        let d = *self.data;
        write_ports(self.raw, d.destination_port, d.source_port);
        *self.data = TCPHeaderData { source_port: d.destination_port, destination_port: d.source_port, ..d };
    }

    /// Recomputes the TCP checksum over the header and `payload`.
    pub fn update_checksum(&mut self, ipv4_header_data: &IPv4HeaderData, payload: &[u8])
        requires
            old(self).data.wf(),
            old(self).raw@.len() >= old(self).data.header_length,
            old(self).data.header_length + payload@.len() <= 65535,
        ensures
            final(self).raw@ == with_word(
                with_word(old(self).raw@, TCP_CHECKSUM_OFFSET as int, 0),
                TCP_CHECKSUM_OFFSET as int,
                checksum_of(
                    transport_sum(
                        ipv4_header_data.source,
                        ipv4_header_data.destination,
                        TCP_PROTOCOL_NUMBER as nat,
                        with_word(old(self).raw@, TCP_CHECKSUM_OFFSET as int, 0).subrange(
                            0,
                            old(self).data.header_length as int,
                        ) + payload@,
                    ),
                ),
            ),
            checksum_is_valid(
                ipv4_header_data.source,
                ipv4_header_data.destination,
                TCP_PROTOCOL_NUMBER as nat,
                final(self).raw@.subrange(0, old(self).data.header_length as int) + payload@,
            ),
            *final(self).data == *old(self).data,
            final(final(self).raw)@ == final(old(self).raw)@,
            *final(final(self).data) == *final(old(self).data),
    {
        write_checksum(
            self.raw,
            self.data.header_length as usize,
            TCP_CHECKSUM_OFFSET,
            payload,
            ipv4_header_data.source,
            ipv4_header_data.destination,
            TCP_PROTOCOL_NUMBER,
        );
    }
}

} // verus!
