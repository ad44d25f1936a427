//! One interface over TCP and UDP headers: an owned snapshot tagged by
//! protocol, and read-only and writable views of a header in a buffer.

use vstd::prelude::*;
use crate::checksum::{checksum_is_valid, checksum_of, transport_sum, with_word};
use crate::ipv4_header::{IPv4HeaderData, Protocol};
use crate::tcp_header::{
    be16, tcp_data_of, tcp_header_fits, tcp_header_length_of, with_ports, TCPHeader, TCPHeaderData,
    TCPHeaderMut, TCP_CHECKSUM_OFFSET, TCP_MIN_HEADER_LENGTH, TCP_PROTOCOL_NUMBER,
};
use crate::udp_header::{
    udp_data_of, udp_header_fits, UDPHeader, UDPHeaderData, UDPHeaderMut, UDP_CHECKSUM_OFFSET,
    UDP_HEADER_LENGTH, UDP_LENGTH_OFFSET, UDP_PROTOCOL_NUMBER,
};

verus! {

/// Read-only view of a transport header in a buffer.
pub enum TransportHeader<'a> {
    TCP(TCPHeader<'a>),
    UDP(UDPHeader<'a>),
}

/// Writable view of a transport header in a buffer.
pub enum TransportHeaderMut<'a> {
    TCP(TCPHeaderMut<'a>),
    UDP(UDPHeaderMut<'a>),
}

/// Owned snapshot of a transport header's fields, tagged by protocol.
#[derive(Clone, Copy, Debug, PartialEq, Eq, Structural)]
pub enum TransportHeaderData {
    TCP(TCPHeaderData),
    UDP(UDPHeaderData),
}

/// `raw` starts with a whole header of `protocol`, when that is TCP or UDP.
pub open spec fn transport_header_fits(protocol: Protocol, raw: Seq<u8>) -> bool {
    match protocol {
        Protocol::TCP => tcp_header_fits(raw),
        Protocol::UDP => udp_header_fits(raw),
        _ => true,
    }
}

/// What parsing `raw` as a header of `protocol` gives: nothing for a protocol
/// other than TCP and UDP.
pub open spec fn parsed(protocol: Protocol, raw: Seq<u8>) -> Option<TransportHeaderData> {
    match protocol {
        Protocol::TCP => Some(TransportHeaderData::TCP(tcp_data_of(raw))),
        Protocol::UDP => Some(TransportHeaderData::UDP(udp_data_of(raw))),
        _ => None,
    }
}

impl TransportHeaderData {
    pub open spec fn spec_source_port(self) -> u16 {
        match self {
            TransportHeaderData::TCP(d) => d.source_port,
            TransportHeaderData::UDP(d) => d.source_port,
        }
    }

    pub open spec fn spec_destination_port(self) -> u16 {
        match self {
            TransportHeaderData::TCP(d) => d.destination_port,
            TransportHeaderData::UDP(d) => d.destination_port,
        }
    }

    pub open spec fn spec_header_length(self) -> u8 {
        match self {
            TransportHeaderData::TCP(d) => d.header_length,
            TransportHeaderData::UDP(_) => UDP_HEADER_LENGTH,
        }
    }

    /// A TCP header length is a multiple of four in `20..=60`.
    pub open spec fn wf(self) -> bool {
        match self {
            TransportHeaderData::TCP(d) => 20 <= d.header_length <= 60 && d.header_length % 4 == 0,
            TransportHeaderData::UDP(_) => true,
        }
    }

    /// `raw` starts with a whole header of this protocol whose fields are
    /// these: the ports, and for TCP the header length.
    pub open spec fn agrees(self, raw: Seq<u8>) -> bool {
        match self {
            TransportHeaderData::TCP(d) => d.agrees(raw),
            TransportHeaderData::UDP(d) => d.agrees(raw),
        }
    }

    /// The same header with source and destination ports exchanged.
    pub open spec fn swapped(self) -> TransportHeaderData {
        match self {
            TransportHeaderData::TCP(d) => TransportHeaderData::TCP(d.swapped()),
            TransportHeaderData::UDP(d) => TransportHeaderData::UDP(d.swapped()),
        }
    }

    /// The IP protocol number that the checksum pseudo-header carries.
    pub open spec fn protocol_number(self) -> u8 {
        match self {
            TransportHeaderData::TCP(_) => TCP_PROTOCOL_NUMBER,
            TransportHeaderData::UDP(_) => UDP_PROTOCOL_NUMBER,
        }
    }

    /// Where the checksum field sits in the header.
    pub open spec fn checksum_offset(self) -> usize {
        match self {
            TransportHeaderData::TCP(_) => TCP_CHECKSUM_OFFSET,
            TransportHeaderData::UDP(_) => UDP_CHECKSUM_OFFSET,
        }
    }

    /// Tells whether `raw` is long enough, and well-formed enough, for `parse`.
    pub fn header_fits(protocol: Protocol, raw: &[u8]) -> (r: bool)
        ensures
            r == transport_header_fits(protocol, raw@),
    {
        match protocol {
            Protocol::TCP => raw.len() >= TCP_MIN_HEADER_LENGTH && raw[12] / 16 >= 5 && raw.len() >= (raw[12] / 16) as usize * 4,
            Protocol::UDP => raw.len() >= UDP_HEADER_LENGTH as usize,
            _ => true,
        }
    }

    pub fn parse(protocol: Protocol, raw: &[u8]) -> (r: Option<Self>)
        requires
            transport_header_fits(protocol, raw@),
        ensures
            r == parsed(protocol, raw@),
            r.is_none() <==> !(protocol is TCP || protocol is UDP),
            r matches Some(d) ==> d.wf() && d.agrees(raw@),
    {
        match protocol {
            Protocol::UDP => Some(TransportHeaderData::from(UDPHeaderData::parse(raw))),
            Protocol::TCP => Some(TransportHeaderData::from(TCPHeaderData::parse(raw))),
            _ => None,
        }
    }

    pub fn bind<'c, 'a: 'c, 'b: 'c>(&'a self, raw: &'b [u8]) -> (r: TransportHeader<'c>)
        requires
            self.agrees(raw@),
        ensures
            r.raw_view() == raw@,
            r.data_view() == *self,
            r.wf(),
    {
        TransportHeader::new(raw, self)
    }

    pub fn bind_mut<'c, 'a: 'c, 'b: 'c>(&'a mut self, raw: &'b mut [u8]) -> (r: TransportHeaderMut<'c>)
        requires
            old(self).agrees(old(raw)@),
        ensures
            r.raw_view() == old(raw)@,
            r.data_view() == *old(self),
            r.wf(),
            match r {
                TransportHeaderMut::TCP(h) => final(raw)@ == final(h.raw)@
                    && *final(self) == TransportHeaderData::TCP(*final(h.data)),
                TransportHeaderMut::UDP(h) => final(raw)@ == final(h.raw)@
                    && *final(self) == TransportHeaderData::UDP(*final(h.data)),
            },
    {
        TransportHeaderMut::new(raw, self)
    }

    pub fn source_port(&self) -> (r: u16)
        ensures
            r == self.spec_source_port(),
    {
        match *self {
            TransportHeaderData::TCP(ref tcp_header_data) => tcp_header_data.source_port(),
            TransportHeaderData::UDP(ref udp_header_data) => udp_header_data.source_port(),
        }
    }

    pub fn destination_port(&self) -> (r: u16)
        ensures
            r == self.spec_destination_port(),
    {
        match *self {
            TransportHeaderData::TCP(ref tcp_header_data) => tcp_header_data.destination_port(),
            TransportHeaderData::UDP(ref udp_header_data) => udp_header_data.destination_port(),
        }
    }

    pub fn header_length(&self) -> (r: u8)
        ensures
            r == self.spec_header_length(),
    {
        match *self {
            TransportHeaderData::TCP(ref tcp_header_data) => tcp_header_data.header_length(),
            TransportHeaderData::UDP(_) => UDP_HEADER_LENGTH,
        }
    }
}

impl<'a> TransportHeader<'a> {
    pub open spec fn raw_view(&self) -> Seq<u8> {
        match self {
            TransportHeader::TCP(h) => h.raw@,
            TransportHeader::UDP(h) => h.raw@,
        }
    }

    pub open spec fn data_view(&self) -> TransportHeaderData {
        match self {
            TransportHeader::TCP(h) => TransportHeaderData::TCP(*h.data),
            TransportHeader::UDP(h) => TransportHeaderData::UDP(*h.data),
        }
    }

    /// The buffer starts with the header that the fields describe.
    pub open spec fn wf(&self) -> bool {
        self.data_view().agrees(self.raw_view())
    }

    pub fn new(raw: &'a [u8], data: &'a TransportHeaderData) -> (r: Self)
        requires
            data.agrees(raw@),
        ensures
            r.raw_view() == raw@,
            r.data_view() == *data,
            r.wf(),
    {
        match *data {
            TransportHeaderData::TCP(ref tcp_header_data) => TransportHeader::from(tcp_header_data.bind(raw)),
            TransportHeaderData::UDP(ref udp_header_data) => TransportHeader::from(udp_header_data.bind(raw)),
        }
    }

    pub fn raw(&self) -> (r: &[u8])
        ensures
            r@ == self.raw_view(),
    {
        match *self {
            TransportHeader::TCP(ref tcp_header) => tcp_header.raw(),
            TransportHeader::UDP(ref udp_header) => udp_header.raw(),
        }
    }

    pub fn data_clone(&self) -> (r: TransportHeaderData)
        ensures
            r == self.data_view(),
    {
        match *self {
            TransportHeader::TCP(ref tcp_header) => TransportHeaderData::from(*tcp_header.data()),
            TransportHeader::UDP(ref udp_header) => TransportHeaderData::from(*udp_header.data()),
        }
    }

    pub fn source_port(&self) -> (r: u16)
        ensures
            r == self.data_view().spec_source_port(),
    {
        match *self {
            TransportHeader::TCP(ref tcp_header) => tcp_header.data().source_port(),
            TransportHeader::UDP(ref udp_header) => udp_header.data().source_port(),
        }
    }

    pub fn destination_port(&self) -> (r: u16)
        ensures
            r == self.data_view().spec_destination_port(),
    {
        match *self {
            TransportHeader::TCP(ref tcp_header) => tcp_header.data().destination_port(),
            TransportHeader::UDP(ref udp_header) => udp_header.data().destination_port(),
        }
    }

    pub fn header_length(&self) -> (r: u8)
        ensures
            r == self.data_view().spec_header_length(),
    {
        match *self {
            TransportHeader::TCP(ref tcp_header) => tcp_header.data().header_length(),
            TransportHeader::UDP(_) => UDP_HEADER_LENGTH,
        }
    }
}

impl<'a> TransportHeaderMut<'a> {
    pub open spec fn raw_view(&self) -> Seq<u8> {
        match self {
            TransportHeaderMut::TCP(h) => h.raw_view(),
            TransportHeaderMut::UDP(h) => h.raw_view(),
        }
    }

    pub open spec fn data_view(&self) -> TransportHeaderData {
        match self {
            TransportHeaderMut::TCP(h) => TransportHeaderData::TCP(h.data_view()),
            TransportHeaderMut::UDP(h) => TransportHeaderData::UDP(h.data_view()),
        }
    }

    /// The buffer starts with the header that the fields describe, so the
    /// two stay in step.
    pub open spec fn wf(&self) -> bool {
        self.data_view().agrees(self.raw_view())
    }

    pub fn new(raw: &'a mut [u8], data: &'a mut TransportHeaderData) -> (r: Self)
        requires
            old(data).agrees(old(raw)@),
        ensures
            r.raw_view() == old(raw)@,
            r.data_view() == *old(data),
            r.wf(),
            match r {
                TransportHeaderMut::TCP(h) => final(raw)@ == final(h.raw)@
                    && *final(data) == TransportHeaderData::TCP(*final(h.data)),
                TransportHeaderMut::UDP(h) => final(raw)@ == final(h.raw)@
                    && *final(data) == TransportHeaderData::UDP(*final(h.data)),
            },
    {
        match data {
            TransportHeaderData::TCP(tcp_header_data) => TransportHeaderMut::from(tcp_header_data.bind_mut(raw)),
            TransportHeaderData::UDP(udp_header_data) => TransportHeaderMut::from(udp_header_data.bind_mut(raw)),
        }
    }

    pub fn raw(&self) -> (r: &[u8])
        ensures
            r@ == self.raw_view(),
    {
        match *self {
            TransportHeaderMut::TCP(ref tcp_header) => tcp_header.raw(),
            TransportHeaderMut::UDP(ref udp_header) => udp_header.raw(),
        }
    }

    pub fn data_clone(&self) -> (r: TransportHeaderData)
        ensures
            r == self.data_view(),
    {
        match *self {
            TransportHeaderMut::TCP(ref tcp_header) => TransportHeaderData::from(*tcp_header.data()),
            TransportHeaderMut::UDP(ref udp_header) => TransportHeaderData::from(*udp_header.data()),
        }
    }

    pub fn source_port(&self) -> (r: u16)
        ensures
            r == self.data_view().spec_source_port(),
    {
        match *self {
            TransportHeaderMut::TCP(ref tcp_header) => tcp_header.data().source_port(),
            TransportHeaderMut::UDP(ref udp_header) => udp_header.data().source_port(),
        }
    }

    pub fn destination_port(&self) -> (r: u16)
        ensures
            r == self.data_view().spec_destination_port(),
    {
        match *self {
            TransportHeaderMut::TCP(ref tcp_header) => tcp_header.data().destination_port(),
            TransportHeaderMut::UDP(ref udp_header) => udp_header.data().destination_port(),
        }
    }

    pub fn header_length(&self) -> (r: u8)
        ensures
            r == self.data_view().spec_header_length(),
    {
        match *self {
            TransportHeaderMut::TCP(ref tcp_header) => tcp_header.data().header_length(),
            TransportHeaderMut::UDP(_) => UDP_HEADER_LENGTH,
        }
    }

    pub fn raw_mut(&mut self) -> (r: &mut [u8])
        ensures
            r@ == old(self).raw_view(),
            final(self).raw_view() == final(r)@,
            final(self).data_view() == old(self).data_view(),
            match (*old(self), *final(self)) {
                (TransportHeaderMut::TCP(a), TransportHeaderMut::TCP(b)) => final(a.raw)@ == final(b.raw)@
                    && *final(a.data) == *final(b.data),
                (TransportHeaderMut::UDP(a), TransportHeaderMut::UDP(b)) => final(a.raw)@ == final(b.raw)@
                    && *final(a.data) == *final(b.data),
                _ => false,
            },
    {
        match self {
            TransportHeaderMut::TCP(tcp_header) => tcp_header.raw_mut(),
            TransportHeaderMut::UDP(udp_header) => udp_header.raw_mut(),
        }
    }

    /// Exchanges source and destination ports in the fields, and writes the
    /// exchanged ports into the buffer.
    pub fn swap_source_and_destination(&mut self)
        requires
            old(self).wf(),
        ensures
            final(self).wf(),
            final(self).raw_view() == with_ports(
                old(self).raw_view(),
                old(self).data_view().spec_destination_port(),
                old(self).data_view().spec_source_port(),
            ),
            be16(final(self).raw_view(), 0) == old(self).data_view().spec_destination_port(),
            be16(final(self).raw_view(), 2) == old(self).data_view().spec_source_port(),
            final(self).data_view() == old(self).data_view().swapped(),
            match (*old(self), *final(self)) {
                (TransportHeaderMut::TCP(a), TransportHeaderMut::TCP(b)) => final(a.raw)@ == final(b.raw)@
                    && *final(a.data) == *final(b.data),
                (TransportHeaderMut::UDP(a), TransportHeaderMut::UDP(b)) => final(a.raw)@ == final(b.raw)@
                    && *final(a.data) == *final(b.data),
                _ => false,
            },
    {
        match self {
            TransportHeaderMut::TCP(tcp_header) => tcp_header.swap_source_and_destination(),
            TransportHeaderMut::UDP(udp_header) => udp_header.swap_source_and_destination(),
        }
    }

    /// Patches the length field of a UDP header to cover `payload_length`
    /// bytes of payload; a TCP header stores no length and is left as it is.
    pub fn set_payload_length(&mut self, payload_length: u16)
        requires
            old(self).wf(),
            old(self).data_view() is UDP ==> payload_length <= 65535 - UDP_HEADER_LENGTH,
        ensures
            final(self).wf(),
            final(self).data_view() == old(self).data_view(),
            final(self).data_view() is UDP ==> be16(final(self).raw_view(), UDP_LENGTH_OFFSET as int)
                == payload_length + UDP_HEADER_LENGTH,
            final(self).raw_view() == match old(self).data_view() {
                TransportHeaderData::UDP(_) => with_word(
                    old(self).raw_view(),
                    UDP_LENGTH_OFFSET as int,
                    (payload_length + UDP_HEADER_LENGTH) as nat,
                ),
                TransportHeaderData::TCP(_) => old(self).raw_view(),
            },
            match (*old(self), *final(self)) {
                (TransportHeaderMut::TCP(a), TransportHeaderMut::TCP(b)) => final(a.raw)@ == final(b.raw)@
                    && *final(a.data) == *final(b.data),
                (TransportHeaderMut::UDP(a), TransportHeaderMut::UDP(b)) => final(a.raw)@ == final(b.raw)@
                    && *final(a.data) == *final(b.data),
                _ => false,
            },
    {
        match self {
            TransportHeaderMut::UDP(udp_header) => udp_header.set_payload_length(payload_length),
            _ => (),
        }
    }

    /// Recomputes the checksum over the header, `payload` and the pseudo-header
    /// built from `ipv4_header_data`, and writes it into the header.
    pub fn update_checksum(&mut self, ipv4_header_data: &IPv4HeaderData, payload: &[u8])
        requires
            old(self).wf(),
            old(self).data_view().spec_header_length() + payload@.len() <= 65535,
        ensures
            final(self).wf(),
            final(self).data_view() == old(self).data_view(),
            final(self).raw_view() == with_word(
                with_word(old(self).raw_view(), old(self).data_view().checksum_offset() as int, 0),
                old(self).data_view().checksum_offset() as int,
                checksum_of(
                    transport_sum(
                        ipv4_header_data.source,
                        ipv4_header_data.destination,
                        old(self).data_view().protocol_number() as nat,
                        with_word(
                            old(self).raw_view(),
                            old(self).data_view().checksum_offset() as int,
                            0,
                        ).subrange(0, old(self).data_view().spec_header_length() as int) + payload@,
                    ),
                ),
            ),
            checksum_is_valid(
                ipv4_header_data.source,
                ipv4_header_data.destination,
                old(self).data_view().protocol_number() as nat,
                final(self).raw_view().subrange(0, old(self).data_view().spec_header_length() as int)
                    + payload@,
            ),
            match (*old(self), *final(self)) {
                (TransportHeaderMut::TCP(a), TransportHeaderMut::TCP(b)) => final(a.raw)@ == final(b.raw)@
                    && *final(a.data) == *final(b.data),
                (TransportHeaderMut::UDP(a), TransportHeaderMut::UDP(b)) => final(a.raw)@ == final(b.raw)@
                    && *final(a.data) == *final(b.data),
                _ => false,
            },
    {
        match self {
            TransportHeaderMut::TCP(tcp_header) => tcp_header.update_checksum(ipv4_header_data, payload),
            TransportHeaderMut::UDP(udp_header) => udp_header.update_checksum(ipv4_header_data, payload),
        }
    }
}

/// Parsing a supported header and asking its length gives the length that
/// its protocol defines: four times the data offset for TCP, within 20 to 60,
/// and always eight for UDP.
pub proof fn lemma_parsed_header_length(protocol: Protocol, raw: Seq<u8>)
    requires
        protocol is TCP || protocol is UDP,
        transport_header_fits(protocol, raw),
    ensures
        parsed(protocol, raw) is Some,
        parsed(protocol, raw).unwrap().wf(),
        protocol is TCP ==> parsed(protocol, raw).unwrap().spec_header_length() == tcp_header_length_of(raw)
            && 20 <= tcp_header_length_of(raw) <= 60,
        protocol is UDP ==> parsed(protocol, raw).unwrap().spec_header_length() == UDP_HEADER_LENGTH,
{
}

/// Parsing a header of any protocol other than TCP and UDP gives nothing.
pub proof fn lemma_unsupported_not_parsed(protocol: Protocol, raw: Seq<u8>)
    requires
        !(protocol is TCP || protocol is UDP),
    ensures
        parsed(protocol, raw) is None,
{
}

/// Swapping source and destination twice restores the original ports, in
/// the fields and in a buffer that agrees with them.
pub proof fn lemma_swap_twice(data: TransportHeaderData, raw: Seq<u8>)
    requires
        data.agrees(raw),
    ensures
        data.swapped().spec_source_port() == data.spec_destination_port(),
        data.swapped().spec_destination_port() == data.spec_source_port(),
        data.swapped().swapped() == data,
        data.swapped().agrees(with_ports(raw, data.spec_destination_port(), data.spec_source_port())),
        with_ports(
            with_ports(raw, data.spec_destination_port(), data.spec_source_port()),
            data.spec_source_port(),
            data.spec_destination_port(),
        ) == raw,
{
    assert(with_ports(
        with_ports(raw, data.spec_destination_port(), data.spec_source_port()),
        data.spec_source_port(),
        data.spec_destination_port(),
    ) =~= raw);
}

impl From<TCPHeaderData> for TransportHeaderData {
    fn from(tcp_header_data: TCPHeaderData) -> TransportHeaderData {
        TransportHeaderData::TCP(tcp_header_data)
    }
}

impl vstd::std_specs::convert::FromSpecImpl<TCPHeaderData> for TransportHeaderData {
    open spec fn obeys_from_spec() -> bool {
        true
    }

    open spec fn from_spec(v: TCPHeaderData) -> TransportHeaderData {
        TransportHeaderData::TCP(v)
    }
}

impl From<UDPHeaderData> for TransportHeaderData {
    fn from(udp_header_data: UDPHeaderData) -> TransportHeaderData {
        TransportHeaderData::UDP(udp_header_data)
    }
}

impl vstd::std_specs::convert::FromSpecImpl<UDPHeaderData> for TransportHeaderData {
    open spec fn obeys_from_spec() -> bool {
        true
    }

    open spec fn from_spec(v: UDPHeaderData) -> TransportHeaderData {
        TransportHeaderData::UDP(v)
    }
}

impl<'a> From<TCPHeader<'a>> for TransportHeader<'a> {
    fn from(tcp_header: TCPHeader<'a>) -> TransportHeader<'a> {
        TransportHeader::TCP(tcp_header)
    }
}

impl<'a> vstd::std_specs::convert::FromSpecImpl<TCPHeader<'a>> for TransportHeader<'a> {
    open spec fn obeys_from_spec() -> bool {
        true
    }

    open spec fn from_spec(v: TCPHeader<'a>) -> TransportHeader<'a> {
        TransportHeader::TCP(v)
    }
}

impl<'a> From<UDPHeader<'a>> for TransportHeader<'a> {
    fn from(udp_header: UDPHeader<'a>) -> TransportHeader<'a> {
        TransportHeader::UDP(udp_header)
    }
}

impl<'a> vstd::std_specs::convert::FromSpecImpl<UDPHeader<'a>> for TransportHeader<'a> {
    open spec fn obeys_from_spec() -> bool {
        true
    }

    open spec fn from_spec(v: UDPHeader<'a>) -> TransportHeader<'a> {
        TransportHeader::UDP(v)
    }
}

impl<'a> From<TCPHeaderMut<'a>> for TransportHeaderMut<'a> {
    fn from(tcp_header: TCPHeaderMut<'a>) -> TransportHeaderMut<'a> {
        TransportHeaderMut::TCP(tcp_header)
    }
}

impl<'a> vstd::std_specs::convert::FromSpecImpl<TCPHeaderMut<'a>> for TransportHeaderMut<'a> {
    open spec fn obeys_from_spec() -> bool {
        true
    }

    open spec fn from_spec(v: TCPHeaderMut<'a>) -> TransportHeaderMut<'a> {
        TransportHeaderMut::TCP(v)
    }
}

impl<'a> From<UDPHeaderMut<'a>> for TransportHeaderMut<'a> {
    fn from(udp_header: UDPHeaderMut<'a>) -> TransportHeaderMut<'a> {
        TransportHeaderMut::UDP(udp_header)
    }
}

impl<'a> vstd::std_specs::convert::FromSpecImpl<UDPHeaderMut<'a>> for TransportHeaderMut<'a> {
    open spec fn obeys_from_spec() -> bool {
        true
    }

    open spec fn from_spec(v: UDPHeaderMut<'a>) -> TransportHeaderMut<'a> {
        TransportHeaderMut::UDP(v)
    }
}

} // verus!
