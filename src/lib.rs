//! Protocol-agnostic TCP/UDP header handling for a packet relay: owned header
//! snapshots, read-only and mutable views over live packet buffers, and the
//! in-place rewrites (endpoint swap, length patch, checksum) a relay needs.

pub mod checksum;
pub mod ipv4_header;
pub mod tcp_header;
pub mod udp_header;
pub mod transport_header;
