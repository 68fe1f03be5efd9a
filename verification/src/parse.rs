//! Parsing inbound Ethernet frames down to the transport layer.
//!
//! A frame is demultiplexed over a closed set of parsed header variants:
//! Ethernet, then IPv4 or IPv6, then TCP, UDP or ICMP. Anything else, and
//! any frame too short for the headers it announces, parses to `None` and
//! is discarded by the receive loop.

use vstd::prelude::*;
use crate::ETHERNET_HEADER_LEN;

verus! {

/// The transport-layer content of one inbound frame, as far as the
/// classifier needs it.
#[derive(Clone, Copy, Debug, PartialEq, Eq, Structural)]
pub enum ParsedTransport {
    /// A TCP segment: its source and destination ports and its flag byte.
    Tcp { src_port: u16, dst_port: u16, flags: u8 },
    /// A UDP datagram: its source and destination ports.
    Udp { src_port: u16, dst_port: u16 },
    /// An ICMP packet carried over IPv4: the sender's address, the IPv4
    /// TTL, and the ICMP type.
    Icmp { src_addr: u32, ttl: u8, icmp_type: u8 },
}

/// The EtherType announced by a frame of at least 14 bytes.
pub open spec fn frame_ethertype(f: Seq<u8>) -> int {
    f[12] * 0x100 + f[13]
}

/// Length in bytes of the IPv4 header a frame announces.
pub open spec fn ipv4_announced_header_len(f: Seq<u8>) -> int {
    (f[ETHERNET_HEADER_LEN as int] % 0x10) * 4
}

/// A TCP segment parsed at byte offset `off` of the frame.
pub open spec fn parse_tcp_spec(f: Seq<u8>, off: int) -> Option<ParsedTransport> {
    if f.len() < off + 20 {
        None
    } else {
        Some(
            ParsedTransport::Tcp {
                src_port: (f[off] * 0x100 + f[off + 1]) as u16,
                dst_port: (f[off + 2] * 0x100 + f[off + 3]) as u16,
                flags: f[off + 13],
            },
        )
    }
}

/// A UDP datagram parsed at byte offset `off` of the frame.
pub open spec fn parse_udp_spec(f: Seq<u8>, off: int) -> Option<ParsedTransport> {
    if f.len() < off + 8 {
        None
    } else {
        Some(
            ParsedTransport::Udp {
                src_port: (f[off] * 0x100 + f[off + 1]) as u16,
                dst_port: (f[off + 2] * 0x100 + f[off + 3]) as u16,
            },
        )
    }
}

/// The source address field of the IPv4 header of a frame.
pub open spec fn ipv4_source_addr(f: Seq<u8>) -> u32 {
    (f[26] * 0x1000000 + f[27] * 0x10000 + f[28] * 0x100 + f[29]) as u32
}

/// An ICMP packet parsed at byte offset `off` of an IPv4 frame: the IPv4
/// source address and TTL come from the network header, the type from the
/// first ICMP byte.
pub open spec fn parse_icmp_spec(f: Seq<u8>, off: int) -> Option<ParsedTransport> {
    if f.len() < off + 8 {
        None
    } else {
        Some(
            ParsedTransport::Icmp {
                src_addr: ipv4_source_addr(f),
                ttl: f[22],
                icmp_type: f[off],
            },
        )
    }
}

/// The transport content of a frame whose EtherType is IPv4: the announced
/// header length is honoured, and the protocol field selects TCP, UDP or
/// ICMP; other protocols are discarded.
pub open spec fn parse_ipv4_frame_spec(f: Seq<u8>) -> Option<ParsedTransport> {
    if f.len() < 34 {
        None
    } else if f[14] / 0x10 != 4 {
        None
    } else if ipv4_announced_header_len(f) < 20 {
        None
    } else {
        let off = 14 + ipv4_announced_header_len(f);
        if f[23] == 6 {
            parse_tcp_spec(f, off)
        } else if f[23] == 17 {
            parse_udp_spec(f, off)
        } else if f[23] == 1 {
            parse_icmp_spec(f, off)
        } else {
            None
        }
    }
}

/// The transport content of a frame whose EtherType is IPv6: the fixed
/// 40-byte header's next-header field selects TCP or UDP; other protocols
/// are discarded.
pub open spec fn parse_ipv6_frame_spec(f: Seq<u8>) -> Option<ParsedTransport> {
    if f.len() < 54 {
        None
    } else if f[20] == 6 {
        parse_tcp_spec(f, 54)
    } else if f[20] == 17 {
        parse_udp_spec(f, 54)
    } else {
        None
    }
}

/// The transport content of one raw frame: Ethernet, then IPv4 or IPv6,
/// then the transport header. Frames of any other shape parse to `None`.
pub open spec fn parse_frame_spec(f: Seq<u8>) -> Option<ParsedTransport> {
    if f.len() < ETHERNET_HEADER_LEN {
        None
    } else if frame_ethertype(f) == 0x0800 {
        parse_ipv4_frame_spec(f)
    } else if frame_ethertype(f) == 0x86DD {
        parse_ipv6_frame_spec(f)
    } else {
        None
    }
}

/// Reads the 16-bit big-endian value at `off`.
fn read_u16(f: &Vec<u8>, off: usize) -> (r: u16)
    requires
        off + 2 <= f.len(),
    ensures
        r == f@[off as int] * 0x100 + f@[off as int + 1],
{
    (f[off] as u16) * 0x100 + (f[off + 1] as u16)
}

/// Parses a TCP segment at byte offset `off` of the frame.
fn tcp_handler(f: &Vec<u8>, off: usize) -> (r: Option<ParsedTransport>)
    ensures
        r == parse_tcp_spec(f@, off as int),
{
    if f.len() < 20 || off > f.len() - 20 {
        return None;
    }
    let src_port = read_u16(f, off);
    let dst_port = read_u16(f, off + 2);
    let flags = f[off + 13];
    Some(ParsedTransport::Tcp { src_port, dst_port, flags })
}

/// Parses a UDP datagram at byte offset `off` of the frame.
fn udp_handler(f: &Vec<u8>, off: usize) -> (r: Option<ParsedTransport>)
    ensures
        r == parse_udp_spec(f@, off as int),
{
    if f.len() < 8 || off > f.len() - 8 {
        return None;
    }
    let src_port = read_u16(f, off);
    let dst_port = read_u16(f, off + 2);
    Some(ParsedTransport::Udp { src_port, dst_port })
}

/// Parses an ICMP packet at byte offset `off` of an IPv4 frame.
fn icmp_handler(f: &Vec<u8>, off: usize) -> (r: Option<ParsedTransport>)
    requires
        34 <= f.len(),
    ensures
        r == parse_icmp_spec(f@, off as int),
{
    if f.len() < 8 || off > f.len() - 8 {
        return None;
    }
    let src_addr = (f[26] as u32) * 0x1000000 + (f[27] as u32) * 0x10000 + (f[28] as u32) * 0x100
        + (f[29] as u32);
    let ttl = f[22];
    let icmp_type = f[off];
    Some(ParsedTransport::Icmp { src_addr, ttl, icmp_type })
}

/// Parses the transport content of a frame announced as IPv4.
fn ipv4_handler(f: &Vec<u8>) -> (r: Option<ParsedTransport>)
    ensures
        r == parse_ipv4_frame_spec(f@),
{
    if f.len() < 34 {
        return None;
    }
    if f[14] / 0x10 != 4 {
        return None;
    }
    let ihl: usize = ((f[14] % 0x10) as usize) * 4;
    if ihl < 20 {
        return None;
    }
    let off = 14 + ihl;
    let proto = f[23];
    if proto == 6 {
        tcp_handler(f, off)
    } else if proto == 17 {
        udp_handler(f, off)
    } else if proto == 1 {
        icmp_handler(f, off)
    } else {
        None
    }
}

/// Parses the transport content of a frame announced as IPv6.
fn ipv6_handler(f: &Vec<u8>) -> (r: Option<ParsedTransport>)
    ensures
        r == parse_ipv6_frame_spec(f@),
{
    if f.len() < 54 {
        return None;
    }
    let next_header = f[20];
    if next_header == 6 {
        tcp_handler(f, 54)
    } else if next_header == 17 {
        udp_handler(f, 54)
    } else {
        None
    }
}

/// Parses one raw inbound frame down to its transport content.
pub fn parse_frame(f: &Vec<u8>) -> (r: Option<ParsedTransport>)
    ensures
        r == parse_frame_spec(f@),
{
    if f.len() < ETHERNET_HEADER_LEN {
        return None;
    }
    let ethertype = read_u16(f, 12);
    if ethertype == 0x0800 {
        ipv4_handler(f)
    } else if ethertype == 0x86DD {
        ipv6_handler(f)
    } else {
        None
    }
}

} // verus!
