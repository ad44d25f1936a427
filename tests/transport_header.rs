use rustrelay::ipv4_header::{IPv4HeaderData, Protocol};
use rustrelay::tcp_header::TCPHeaderData;
use rustrelay::transport_header::{TransportHeader, TransportHeaderData, TransportHeaderMut};
use rustrelay::udp_header::UDPHeaderData;

fn udp_packet() -> Vec<u8> {
    // source port 5000, destination port 80, length 10, checksum 0
    vec![0x13, 0x88, 0x00, 0x50, 0x00, 0x0a, 0x00, 0x00]
}

fn tcp_packet(data_offset: u8) -> Vec<u8> {
    let mut raw = vec![0u8; data_offset as usize * 4];
    raw[0] = 0x04;
    raw[1] = 0xd2; // 1234
    raw[2] = 0x01;
    raw[3] = 0xbb; // 443
    raw[12] = data_offset << 4;
    raw[13] = 0x18;
    raw
}

fn ones_complement_sum(source: u32, destination: u32, protocol: u8, segment: &[u8]) -> u32 {
    let mut sum: u32 = (source >> 16) + (source & 0xffff) + (destination >> 16) + (destination & 0xffff);
    sum += protocol as u32 + segment.len() as u32;
    let mut i = 0;
    while i < segment.len() {
        let hi = segment[i] as u32;
        let lo = if i + 1 < segment.len() { segment[i + 1] as u32 } else { 0 };
        sum += (hi << 8) | lo;
        i += 2;
    }
    while sum > 0xffff {
        sum = (sum & 0xffff) + (sum >> 16);
    }
    sum
}

#[test]
fn udp_parse_then_swap_scenario() {
    let mut raw = udp_packet();
    let mut data = TransportHeaderData::parse(Protocol::UDP, &raw).unwrap();
    assert_eq!(data.source_port(), 5000);
    assert_eq!(data.destination_port(), 80);
    {
        let mut header = data.bind_mut(&mut raw);
        header.swap_source_and_destination();
        assert_eq!(header.source_port(), 80);
        assert_eq!(header.destination_port(), 5000);
        assert_eq!(header.header_length(), 8);
    }
    assert_eq!(data.source_port(), 80);
    assert_eq!(data.destination_port(), 5000);
    assert_eq!(data.header_length(), 8);
    assert_eq!(&raw[0..4], &[0x00, 0x50, 0x13, 0x88]);
}

#[test]
fn tcp_32_byte_header_scenario() {
    let mut raw = tcp_packet(8);
    let original = raw.clone();
    let mut data = TransportHeaderData::parse(Protocol::TCP, &raw).unwrap();
    assert_eq!(data.header_length(), 32);
    {
        let mut header = data.bind_mut(&mut raw);
        header.set_payload_length(1000);
        assert_eq!(header.header_length(), 32);
    }
    assert_eq!(raw, original);
}

#[test]
fn short_tcp_header_is_caught() {
    let garbage = [0xde, 0xad, 0xbe, 0xef];
    assert!(!TransportHeaderData::header_fits(Protocol::TCP, &garbage));
    assert!(!TransportHeaderData::header_fits(Protocol::UDP, &garbage));
}

#[test]
fn tcp_data_offset_below_five_is_caught() {
    let mut raw = tcp_packet(5);
    raw[12] = 4 << 4;
    assert!(!TransportHeaderData::header_fits(Protocol::TCP, &raw));
    let raw = tcp_packet(5);
    assert!(TransportHeaderData::header_fits(Protocol::TCP, &raw));
}

#[test]
fn tcp_header_longer_than_buffer_is_caught() {
    let mut raw = tcp_packet(5);
    raw[12] = 6 << 4;
    assert!(!TransportHeaderData::header_fits(Protocol::TCP, &raw));
}

#[test]
fn header_length_per_protocol() {
    for offset in 5u8..=15 {
        let raw = tcp_packet(offset);
        let data = TransportHeaderData::parse(Protocol::TCP, &raw).unwrap();
        assert_eq!(data.header_length(), offset * 4);
    }
    let data = TransportHeaderData::parse(Protocol::UDP, &udp_packet()).unwrap();
    assert_eq!(data.header_length(), 8);
}

#[test]
fn unsupported_protocols_are_not_parsed() {
    let raw = tcp_packet(5);
    assert!(TransportHeaderData::parse(Protocol::ICMP, &raw).is_none());
    assert!(TransportHeaderData::parse(Protocol::Other(47), &raw).is_none());
    assert!(TransportHeaderData::header_fits(Protocol::ICMP, &[]));
}

#[test]
fn parse_reads_ports_and_variant() {
    let data = TransportHeaderData::parse(Protocol::TCP, &tcp_packet(5)).unwrap();
    assert_eq!(
        data,
        TransportHeaderData::TCP(TCPHeaderData { source_port: 1234, destination_port: 443, header_length: 20 })
    );
    let data = TransportHeaderData::parse(Protocol::UDP, &udp_packet()).unwrap();
    assert_eq!(data, TransportHeaderData::UDP(UDPHeaderData { source_port: 5000, destination_port: 80 }));
}

#[test]
fn bind_then_data_clone_round_trips() {
    let raw = tcp_packet(6);
    let data = TransportHeaderData::parse(Protocol::TCP, &raw).unwrap();
    let header: TransportHeader = data.bind(&raw);
    assert_eq!(header.data_clone(), data);
    assert_eq!(header.raw(), &raw[..]);
    assert_eq!(header.source_port(), 1234);
    assert_eq!(header.destination_port(), 443);
    assert_eq!(header.header_length(), 24);

    let mut raw = udp_packet();
    let mut data = TransportHeaderData::parse(Protocol::UDP, &raw).unwrap();
    let copy = data;
    let header: TransportHeaderMut = data.bind_mut(&mut raw);
    assert_eq!(header.data_clone(), copy);
    assert_eq!(header.raw(), &udp_packet()[..]);
}

#[test]
fn swap_twice_restores_ports() {
    let mut raw = tcp_packet(5);
    let original = raw.clone();
    let mut data = TransportHeaderData::parse(Protocol::TCP, &raw).unwrap();
    let before = data;
    {
        let mut header = data.bind_mut(&mut raw);
        header.swap_source_and_destination();
        assert_eq!(header.source_port(), 443);
        header.swap_source_and_destination();
        assert_eq!(header.source_port(), 1234);
        assert_eq!(header.destination_port(), 443);
    }
    assert_eq!(data, before);
    assert_eq!(raw, original);
}

#[test]
fn udp_set_payload_length_patches_length_field() {
    let mut raw = udp_packet();
    let mut data = TransportHeaderData::parse(Protocol::UDP, &raw).unwrap();
    {
        let mut header = data.bind_mut(&mut raw);
        header.set_payload_length(1000);
    }
    assert_eq!(u16::from_be_bytes([raw[4], raw[5]]), 1008);
    {
        let mut header = data.bind_mut(&mut raw);
        header.set_payload_length(65527);
    }
    assert_eq!(u16::from_be_bytes([raw[4], raw[5]]), 65535);
    assert_eq!(&raw[0..4], &udp_packet()[0..4]);
}

#[test]
fn udp_checksum_exact_value() {
    let mut raw = udp_packet();
    let payload = [0x01, 0x02];
    let ip = IPv4HeaderData::new(0x0a00_0001, 0x0a00_0002, Protocol::UDP, 30);
    let mut data = TransportHeaderData::parse(Protocol::UDP, &raw).unwrap();
    {
        let mut header = data.bind_mut(&mut raw);
        header.update_checksum(&ip, &payload);
    }
    assert_eq!(&raw[6..8], &[0xd6, 0xfd]);
}

#[test]
fn checksum_valid_after_swap_and_payload_change() {
    let mut raw = udp_packet();
    let payload = [0x11, 0x22, 0x33];
    let ip = IPv4HeaderData::new(0xc0a8_0001, 0x0808_0808, Protocol::UDP, 31);
    let mut data = TransportHeaderData::parse(Protocol::UDP, &raw).unwrap();
    {
        let mut header = data.bind_mut(&mut raw);
        header.swap_source_and_destination();
        header.set_payload_length(payload.len() as u16);
        header.update_checksum(&ip, &payload);
    }
    let mut segment = raw.clone();
    segment.extend_from_slice(&payload);
    assert_eq!(ones_complement_sum(ip.source(), ip.destination(), 17, &segment), 0xffff);

    let mut raw = tcp_packet(8);
    raw[16] = 0xab;
    raw[17] = 0xcd;
    let payload = vec![7u8; 101];
    let ip = IPv4HeaderData::new(0x0a00_0002, 0x0a00_0001, Protocol::TCP, 153);
    let mut data = TransportHeaderData::parse(Protocol::TCP, &raw).unwrap();
    {
        let mut header = data.bind_mut(&mut raw);
        header.swap_source_and_destination();
        header.update_checksum(&ip, &payload);
    }
    let mut segment = raw.clone();
    segment.extend_from_slice(&payload);
    assert_eq!(ones_complement_sum(ip.source(), ip.destination(), 6, &segment), 0xffff);
}

#[test]
fn raw_mut_writes_reach_the_buffer() {
    let mut raw = udp_packet();
    let mut data = TransportHeaderData::parse(Protocol::UDP, &raw).unwrap();
    {
        let mut header = data.bind_mut(&mut raw);
        header.raw_mut()[7] = 0x42;
        assert_eq!(header.raw()[7], 0x42);
    }
    assert_eq!(raw[7], 0x42);
}

#[test]
fn views_are_built_from_data() {
    let raw = udp_packet();
    let data = TransportHeaderData::UDP(UDPHeaderData { source_port: 5000, destination_port: 80 });
    let header = TransportHeader::new(&raw, &data);
    assert_eq!(header.source_port(), 5000);
    assert_eq!(header.destination_port(), 80);
    let mut raw = tcp_packet(5);
    let mut data = TransportHeaderData::TCP(TCPHeaderData { source_port: 1234, destination_port: 443, header_length: 20 });
    let header = TransportHeaderMut::new(&mut raw, &mut data);
    assert_eq!(header.source_port(), 1234);
    assert_eq!(header.header_length(), 20);
}

#[test]
fn tcp_header_followed_by_payload_in_buffer() {
    // the buffer holds the header and then payload bytes; the checksum
    // covers the header once and the payload passed in
    let mut raw = tcp_packet(5);
    raw.extend_from_slice(&[0xee; 7]);
    let payload = [0x55u8; 5];
    let ip = IPv4HeaderData::new(0x7f00_0001, 0x7f00_0002, Protocol::TCP, 45);
    let mut data = TransportHeaderData::parse(Protocol::TCP, &raw).unwrap();
    {
        let mut header = data.bind_mut(&mut raw);
        header.update_checksum(&ip, &payload);
    }
    let mut segment = raw[0..20].to_vec();
    segment.extend_from_slice(&payload);
    assert_eq!(ones_complement_sum(ip.source(), ip.destination(), 6, &segment), 0xffff);
    assert_eq!(&raw[20..], &[0xee; 7]);
}

#[test]
fn ipv4_header_data_accessors() {
    let ip = IPv4HeaderData::new(1, 2, Protocol::Other(99), 40);
    assert_eq!(ip.total_length(), 40);
    assert_eq!(ip.source(), 1);
    assert_eq!(ip.destination(), 2);
    assert_eq!(ip.protocol(), Protocol::Other(99));
}
