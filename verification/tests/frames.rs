//! Byte-level tests of the probe builders, their checksums, and the frame
//! parser.

use netscan::checksum::{checksum_block, fold_block, sum_block};
use netscan::ethernet::{EtherType, MacAddr};
use netscan::icmp::build_icmp_packet;
use netscan::parse::{parse_frame, ParsedTransport};
use netscan::port::{build_packet, build_probe_frames, TcpOptions};
use netscan::result::PortScanType;
use netscan::tcp::build_syn_packet;

fn sample_options() -> TcpOptions {
    TcpOptions {
        sender_mac: MacAddr { octets: [0x02, 0x11, 0x22, 0x33, 0x44, 0x55] },
        target_mac: MacAddr { octets: [0x02, 0xAA, 0xBB, 0xCC, 0xDD, 0xEE] },
        src_ip: 0xC0A80102,  // 192.168.1.2
        dst_ip: 0xC0A80101,  // 192.168.1.1
        src_port: 53211,
        min_port_num: 80,
        max_port_num: 82,
        scan_type: PortScanType::SynScan,
        timeout: 30000,
    }
}

/// The twelve pseudo-header bytes for a 32-byte TCP segment.
fn pseudo_header(src_ip: u32, dst_ip: u32) -> Vec<u8> {
    let mut p = Vec::new();
    p.extend_from_slice(&src_ip.to_be_bytes());
    p.extend_from_slice(&dst_ip.to_be_bytes());
    p.push(0);
    p.push(6);
    p.push(0);
    p.push(32);
    p
}

#[test]
fn tcp_syn_checksum_validates() {
    let src_ip: u32 = 0x0A000001;
    let dst_ip: u32 = 0x0A000002;
    let segment = build_syn_packet(src_ip, 4321, dst_ip, 443);
    let pseudo = pseudo_header(src_ip, dst_ip);
    let a = sum_block(&pseudo, 0, pseudo.len());
    let b = sum_block(&segment, 0, segment.len());
    // The folded one's-complement sum over pseudo-header and segment,
    // checksum field included, must be 0xFFFF: the complement is zero.
    assert_eq!(fold_block(a + b), 0xFFFF);
}

#[test]
fn tcp_syn_segment_layout() {
    let segment = build_syn_packet(0x0A000001, 4321, 0x0A000002, 80);
    assert_eq!(segment.len(), 32);
    assert_eq!(&segment[0..2], &[16, 225]); // source port 4321
    assert_eq!(&segment[2..4], &[0, 80]); // destination port 80
    assert_eq!(&segment[4..8], &[0, 0, 0, 0]); // sequence number 0
    assert_eq!(&segment[8..12], &[0, 0, 0, 0]); // acknowledgement 0
    assert_eq!(segment[12], 0x80); // data offset 8 words
    assert_eq!(segment[13], 0x02); // flags: SYN only
    assert_eq!(&segment[14..16], &[0xFA, 0xF0]); // window 64240
    assert_eq!(&segment[18..20], &[0, 0]); // urgent pointer 0
    // Options: MSS 1460, SACK-permitted, NOP, NOP, window scale 7, padding.
    assert_eq!(&segment[20..32], &[2, 4, 5, 0xB4, 4, 2, 1, 1, 3, 3, 7, 0]);
}

#[test]
fn icmp_echo_checksum_validates() {
    let mut buf = vec![0u8; 16];
    build_icmp_packet(&mut buf);
    assert_eq!(buf[0], 8); // type: echo request
    assert_eq!(buf[1], 0); // code 0
    assert_eq!(&buf[4..8], &[0, 0, 0, 0]); // identifier 0, sequence 0
    // Recomputed over the complete packet, the checksum complements to zero.
    assert_eq!(checksum_block(&buf, 0, 16), 0);
}

#[test]
fn icmp_echo_checksum_exact_value() {
    // With a zeroed payload the only word is the type byte: the sum is
    // 0x0800, so the carried checksum must be its complement 0xF7FF.
    let mut buf = vec![0u8; 16];
    build_icmp_packet(&mut buf);
    assert_eq!(&buf[2..4], &[0xF7, 0xFF]);
}

#[test]
fn icmp_echo_keeps_payload_and_odd_lengths_sum() {
    let mut buf = vec![0u8; 11];
    buf[8] = 0xDE;
    buf[9] = 0xAD;
    buf[10] = 0xBE;
    build_icmp_packet(&mut buf);
    assert_eq!(&buf[8..11], &[0xDE, 0xAD, 0xBE]);
    // The checksum covers the odd trailing byte, padded with zero.
    assert_eq!(checksum_block(&buf, 0, 11), 0);
}

#[test]
fn syn_probe_frame_layout() {
    let opts = sample_options();
    let mut frame = vec![0u8; 66];
    build_packet(&opts, &mut frame, 443);
    // Ethernet: destination, source, EtherType IPv4.
    assert_eq!(&frame[0..6], &[0x02, 0xAA, 0xBB, 0xCC, 0xDD, 0xEE]);
    assert_eq!(&frame[6..12], &[0x02, 0x11, 0x22, 0x33, 0x44, 0x55]);
    assert_eq!(&frame[12..14], &[0x08, 0x00]);
    // IPv4: version 4, header length 5 words, total length 52, TTL 64,
    // protocol TCP, the configured addresses.
    assert_eq!(frame[14], 0x45);
    assert_eq!(&frame[16..18], &[0, 52]);
    assert_eq!(frame[22], 64);
    assert_eq!(frame[23], 6);
    assert_eq!(&frame[26..30], &[192, 168, 1, 2]);
    assert_eq!(&frame[30..34], &[192, 168, 1, 1]);
    // The IPv4 header checksum validates over the 20 header bytes.
    assert_eq!(checksum_block(&frame, 14, 34), 0);
    // TCP: the scan's source port, the target port, SYN.
    assert_eq!(&frame[34..36], &[(53211u16 >> 8) as u8, (53211 & 0xFF) as u8]);
    assert_eq!(&frame[36..38], &[(443u16 >> 8) as u8, (443 & 0xFF) as u8]);
    assert_eq!(frame[47], 0x02);
    // And the TCP checksum over pseudo-header and segment validates.
    let pseudo = pseudo_header(opts.src_ip, opts.dst_ip);
    let a = sum_block(&pseudo, 0, pseudo.len());
    let b = sum_block(&frame, 34, 66);
    assert_eq!(fold_block(a + b), 0xFFFF);
}

#[test]
fn probe_frames_cover_range_in_ascending_order() {
    let opts = sample_options();
    let frames = build_probe_frames(&opts);
    assert_eq!(frames.len(), 3);
    for (i, frame) in frames.iter().enumerate() {
        let port = 80 + i as u16;
        assert_eq!(frame.len(), 66);
        let dst = ((frame[36] as u16) << 8) | frame[37] as u16;
        assert_eq!(dst, port);
        // Each frame is exactly the frame built for that port.
        let mut expected = vec![0u8; 66];
        build_packet(&opts, &mut expected, port);
        assert_eq!(frame, &expected);
    }
}

#[test]
fn built_probe_frame_parses_as_its_own_syn_segment() {
    let opts = sample_options();
    let mut frame = vec![0u8; 66];
    build_packet(&opts, &mut frame, 8080);
    match parse_frame(&frame) {
        Some(ParsedTransport::Tcp { src_port, dst_port, flags }) => {
            assert_eq!(src_port, opts.src_port);
            assert_eq!(dst_port, 8080);
            assert_eq!(flags, 0x02);
        }
        other => panic!("expected a TCP parse, got {:?}", other),
    }
}

#[test]
fn ether_type_and_mac_round_trip() {
    assert_ne!(EtherType::Ipv4, EtherType::Ipv6);
    let mac = MacAddr { octets: [1, 2, 3, 4, 5, 6] };
    assert_eq!(mac, mac.clone());
}

fn tcp_reply_frame(src_ip: [u8; 4], src_port: u16, dst_port: u16, flags: u8) -> Vec<u8> {
    let mut f = vec![0u8; 54];
    f[12] = 0x08;
    f[13] = 0x00;
    f[14] = 0x45;
    f[22] = 64;
    f[23] = 6;
    f[26..30].copy_from_slice(&src_ip);
    f[34] = (src_port >> 8) as u8;
    f[35] = (src_port & 0xFF) as u8;
    f[36] = (dst_port >> 8) as u8;
    f[37] = (dst_port & 0xFF) as u8;
    f[47] = flags;
    f
}

#[test]
fn parse_ipv4_tcp_reply() {
    let f = tcp_reply_frame([10, 0, 0, 7], 80, 53211, 0x12);
    match parse_frame(&f) {
        Some(ParsedTransport::Tcp { src_port, dst_port, flags }) => {
            assert_eq!(src_port, 80);
            assert_eq!(dst_port, 53211);
            assert_eq!(flags, 0x12);
        }
        other => panic!("expected a TCP parse, got {:?}", other),
    }
}

#[test]
fn parse_honours_announced_ipv4_header_length() {
    // An IPv4 header of 6 words pushes the TCP segment 4 bytes further out.
    let mut f = vec![0u8; 58];
    f[12] = 0x08;
    f[14] = 0x46;
    f[23] = 6;
    f[38] = (8080u16 >> 8) as u8;
    f[39] = (8080 & 0xFF) as u8;
    f[51] = 0x14;
    match parse_frame(&f) {
        Some(ParsedTransport::Tcp { src_port, flags, .. }) => {
            assert_eq!(src_port, 8080);
            assert_eq!(flags, 0x14);
        }
        other => panic!("expected a TCP parse, got {:?}", other),
    }
}

#[test]
fn parse_ipv6_tcp_reply() {
    let mut f = vec![0u8; 74];
    f[12] = 0x86;
    f[13] = 0xDD;
    f[20] = 6; // next header: TCP
    f[54] = (443u16 >> 8) as u8;
    f[55] = (443 & 0xFF) as u8;
    f[67] = 0x12;
    match parse_frame(&f) {
        Some(ParsedTransport::Tcp { src_port, flags, .. }) => {
            assert_eq!(src_port, 443);
            assert_eq!(flags, 0x12);
        }
        other => panic!("expected a TCP parse, got {:?}", other),
    }
}

#[test]
fn parse_icmp_reply_reports_sender_and_ttl() {
    let mut f = vec![0u8; 42];
    f[12] = 0x08;
    f[14] = 0x45;
    f[22] = 57;
    f[23] = 1;
    f[26..30].copy_from_slice(&[10, 0, 0, 1]);
    f[34] = 0; // echo reply
    match parse_frame(&f) {
        Some(ParsedTransport::Icmp { src_addr, ttl, icmp_type }) => {
            assert_eq!(src_addr, 0x0A000001);
            assert_eq!(ttl, 57);
            assert_eq!(icmp_type, 0);
        }
        other => panic!("expected an ICMP parse, got {:?}", other),
    }
}

#[test]
fn parse_udp_reply() {
    let mut f = vec![0u8; 54];
    f[12] = 0x08;
    f[14] = 0x45;
    f[23] = 17;
    f[34] = 0;
    f[35] = 53;
    f[36] = (53211u16 >> 8) as u8;
    f[37] = (53211 & 0xFF) as u8;
    match parse_frame(&f) {
        Some(ParsedTransport::Udp { src_port, dst_port }) => {
            assert_eq!(src_port, 53);
            assert_eq!(dst_port, 53211);
        }
        other => panic!("expected a UDP parse, got {:?}", other),
    }
}

#[test]
fn parse_discards_foreign_and_short_frames() {
    assert_eq!(parse_frame(&vec![0u8; 10]), None); // shorter than Ethernet
    let mut arp = vec![0u8; 60];
    arp[12] = 0x08;
    arp[13] = 0x06;
    assert_eq!(parse_frame(&arp), None); // ARP is discarded
    let mut short_ip = vec![0u8; 20];
    short_ip[12] = 0x08;
    assert_eq!(parse_frame(&short_ip), None); // truncated IPv4
    let mut bad_version = tcp_reply_frame([10, 0, 0, 7], 80, 53211, 0x12);
    bad_version[14] = 0x55;
    assert_eq!(parse_frame(&bad_version), None); // not version 4
    let mut other_proto = tcp_reply_frame([10, 0, 0, 7], 80, 53211, 0x12);
    other_proto[23] = 47;
    assert_eq!(parse_frame(&other_proto), None); // unknown transport
}
