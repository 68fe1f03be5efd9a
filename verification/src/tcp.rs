//! The TCP SYN segment the scanner emits: fixed sequence number 0, window
//! 64240, data offset 8 (twelve bytes of options: MSS 1460, SACK-permitted,
//! two NOPs, window scale 7), flags SYN only, and a checksum over the IPv4
//! pseudo-header and the segment that is proved to validate.

use vstd::prelude::*;
use vstd::arithmetic::div_mod::lemma_fundamental_div_mod;
use crate::checksum::{
    checksum_valid, checksum_with_head, internet_checksum, lemma_checksum_completion,
    lemma_fold_carries_props, lemma_sum_words_bounds, sum_words, word_at,
};

verus! {

/// Length in bytes of the TCP header the scanner emits, options included.
pub const TCP_HEADER_LEN: usize = 32;

/// The TCP flag bits used by the scanner.
pub const TCP_FLAG_SYN: u8 = 0x02;

/// SYN and ACK: the reply of an open port.
pub const TCP_FLAGS_SYN_ACK: u8 = 0x12;

/// RST and ACK: the reply of a closed port.
pub const TCP_FLAGS_RST_ACK: u8 = 0x14;

/// Byte `i` of the 32-byte TCP SYN segment with checksum field `ck`.
pub open spec fn tcp_syn_segment_byte(src_port: u16, dst_port: u16, ck: int, i: int) -> u8 {
    if i == 0 {
        (src_port / 0x100) as u8
    } else if i == 1 {
        (src_port % 0x100) as u8
    } else if i == 2 {
        (dst_port / 0x100) as u8
    } else if i == 3 {
        (dst_port % 0x100) as u8
    } else if i == 12 {
        0x80  // data offset 8 words, no reserved bits
    } else if i == 13 {
        TCP_FLAG_SYN
    } else if i == 14 {
        0xFA  // window 64240, high byte
    } else if i == 15 {
        0xF0  // window 64240, low byte
    } else if i == 16 {
        (ck / 0x100) as u8
    } else if i == 17 {
        (ck % 0x100) as u8
    } else if i == 20 {
        2  // option: MSS
    } else if i == 21 {
        4  // MSS option length
    } else if i == 22 {
        5  // MSS 1460, high byte
    } else if i == 23 {
        0xB4  // MSS 1460, low byte
    } else if i == 24 {
        4  // option: SACK permitted
    } else if i == 25 {
        2  // SACK-permitted option length
    } else if i == 26 {
        1  // option: NOP
    } else if i == 27 {
        1  // option: NOP
    } else if i == 28 {
        3  // option: window scale
    } else if i == 29 {
        3  // window-scale option length
    } else if i == 30 {
        7  // window scale 7
    } else {
        0  // sequence 0, acknowledgement 0, urgent pointer 0, padding
    }
}

/// The 32 bytes of the TCP SYN segment with checksum field `ck`.
pub open spec fn tcp_syn_segment(src_port: u16, dst_port: u16, ck: int) -> Seq<u8> {
    Seq::new(TCP_HEADER_LEN as nat, |i: int| tcp_syn_segment_byte(src_port, dst_port, ck, i))
}

/// Byte `i` of the IPv4 pseudo-header over which a TCP checksum is computed:
/// source address, destination address, a zero byte, protocol 6, and the
/// segment length.
pub open spec fn tcp_pseudo_header_byte(src_ip: u32, dst_ip: u32, seg_len: u16, i: int) -> u8 {
    if i == 0 {
        (src_ip / 0x1000000) as u8
    } else if i == 1 {
        ((src_ip / 0x10000) % 0x100) as u8
    } else if i == 2 {
        ((src_ip / 0x100) % 0x100) as u8
    } else if i == 3 {
        (src_ip % 0x100) as u8
    } else if i == 4 {
        (dst_ip / 0x1000000) as u8
    } else if i == 5 {
        ((dst_ip / 0x10000) % 0x100) as u8
    } else if i == 6 {
        ((dst_ip / 0x100) % 0x100) as u8
    } else if i == 7 {
        (dst_ip % 0x100) as u8
    } else if i == 9 {
        6  // protocol: TCP
    } else if i == 10 {
        (seg_len / 0x100) as u8
    } else if i == 11 {
        (seg_len % 0x100) as u8
    } else {
        0
    }
}

/// The 12 bytes of the IPv4 pseudo-header for a TCP segment of `seg_len` bytes.
pub open spec fn tcp_pseudo_header(src_ip: u32, dst_ip: u32, seg_len: u16) -> Seq<u8> {
    Seq::new(12, |i: int| tcp_pseudo_header_byte(src_ip, dst_ip, seg_len, i))
}

/// The checksum a built SYN segment carries: the internet checksum of the
/// pseudo-header followed by the segment with a zeroed checksum field.
pub open spec fn tcp_syn_checksum(src_ip: u32, dst_ip: u32, src_port: u16, dst_port: u16) -> int {
    internet_checksum(
        tcp_pseudo_header(src_ip, dst_ip, TCP_HEADER_LEN as u16)
            + tcp_syn_segment(src_port, dst_port, 0),
    )
}

/// Every built TCP SYN segment validates: the folded word sum over the
/// pseudo-header and the segment, checksum field included, is `0xFFFF`.
pub proof fn lemma_tcp_syn_checksum_validates(
    src_ip: u32,
    dst_ip: u32,
    src_port: u16,
    dst_port: u16,
)
    ensures
        checksum_valid(
            tcp_pseudo_header(src_ip, dst_ip, TCP_HEADER_LEN as u16) + tcp_syn_segment(
                src_port,
                dst_port,
                tcp_syn_checksum(src_ip, dst_ip, src_port, dst_port),
            ),
        ),
{
    let p = tcp_pseudo_header(src_ip, dst_ip, TCP_HEADER_LEN as u16);
    let ck = tcp_syn_checksum(src_ip, dst_ip, src_port, dst_port);
    let s = p + tcp_syn_segment(src_port, dst_port, 0);
    let t = p + tcp_syn_segment(src_port, dst_port, ck);
    lemma_sum_words_bounds(s);
    lemma_fold_carries_props(sum_words(s));
    assert(0 <= ck <= 0xFFFF);
    lemma_fundamental_div_mod(ck, 0x100);
    assert(word_at(s, 14) == 0);
    assert(word_at(t, 14) == ck);
    lemma_checksum_completion(s, t, 14);
}

/// Writes the TCP SYN probe segment for `src_port -> dst_port` into
/// `buf[start..]`, which must be exactly the 32 segment bytes; the checksum
/// field carries the checksum over the IPv4 pseudo-header for
/// `src_ip -> dst_ip` and the segment. Bytes before `start` are untouched.
#[verifier::rlimit(60)]
pub fn build_tcp_packet(
    buf: &mut Vec<u8>,
    start: usize,
    src_ip: u32,
    src_port: u16,
    dst_ip: u32,
    dst_port: u16,
)
    requires
        start + TCP_HEADER_LEN == old(buf).len(),
    ensures
        final(buf).len() == old(buf).len(),
        final(buf)@.subrange(start as int, old(buf).len() as int) == tcp_syn_segment(
            src_port,
            dst_port,
            tcp_syn_checksum(src_ip, dst_ip, src_port, dst_port),
        ),
        forall|i: int| 0 <= i < start ==> final(buf)@[i] == old(buf)@[i],
{
    buf[start] = (src_port / 0x100) as u8;
    buf[start + 1] = (src_port % 0x100) as u8;
    buf[start + 2] = (dst_port / 0x100) as u8;
    buf[start + 3] = (dst_port % 0x100) as u8;
    buf[start + 4] = 0;
    buf[start + 5] = 0;
    buf[start + 6] = 0;
    buf[start + 7] = 0;
    buf[start + 8] = 0;
    buf[start + 9] = 0;
    buf[start + 10] = 0;
    buf[start + 11] = 0;
    buf[start + 12] = 0x80;
    buf[start + 13] = TCP_FLAG_SYN;
    buf[start + 14] = 0xFA;
    buf[start + 15] = 0xF0;
    buf[start + 16] = 0;
    buf[start + 17] = 0;
    buf[start + 18] = 0;
    buf[start + 19] = 0;
    buf[start + 20] = 2;
    buf[start + 21] = 4;
    buf[start + 22] = 5;
    buf[start + 23] = 0xB4;
    buf[start + 24] = 4;
    buf[start + 25] = 2;
    buf[start + 26] = 1;
    buf[start + 27] = 1;
    buf[start + 28] = 3;
    buf[start + 29] = 3;
    buf[start + 30] = 7;
    buf[start + 31] = 0;
    assert(buf@.subrange(start as int, buf.len() as int)
        =~= tcp_syn_segment(src_port, dst_port, 0));
    let mut pseudo: Vec<u8> = Vec::new();
    pseudo.push((src_ip / 0x1000000) as u8);
    pseudo.push(((src_ip / 0x10000) % 0x100) as u8);
    pseudo.push(((src_ip / 0x100) % 0x100) as u8);
    pseudo.push((src_ip % 0x100) as u8);
    pseudo.push((dst_ip / 0x1000000) as u8);
    pseudo.push(((dst_ip / 0x10000) % 0x100) as u8);
    pseudo.push(((dst_ip / 0x100) % 0x100) as u8);
    pseudo.push((dst_ip % 0x100) as u8);
    pseudo.push(0);
    pseudo.push(6);
    pseudo.push(0);
    pseudo.push(TCP_HEADER_LEN as u8);
    assert(pseudo@ =~= tcp_pseudo_header(src_ip, dst_ip, TCP_HEADER_LEN as u16));
    let ck = checksum_with_head(&pseudo, buf, start, start + TCP_HEADER_LEN);
    buf[start + 16] = (ck / 0x100) as u8;
    buf[start + 17] = (ck % 0x100) as u8;
    assert(buf@.subrange(start as int, buf.len() as int)
        =~= tcp_syn_segment(
        src_port,
        dst_port,
        tcp_syn_checksum(src_ip, dst_ip, src_port, dst_port),
    ));
}

/// Builds the 32-byte TCP SYN probe segment for `src_port -> dst_port` as a
/// fresh buffer, checksummed against the `src_ip -> dst_ip` pseudo-header.
pub fn build_syn_packet(src_ip: u32, src_port: u16, dst_ip: u32, dst_port: u16) -> (r: Vec<u8>)
    ensures
        r@ == tcp_syn_segment(
            src_port,
            dst_port,
            tcp_syn_checksum(src_ip, dst_ip, src_port, dst_port),
        ),
{
    let mut buf: Vec<u8> = Vec::new();
    let mut i: usize = 0;
    while i < TCP_HEADER_LEN
        invariant
            buf.len() == i,
            i <= TCP_HEADER_LEN,
        decreases TCP_HEADER_LEN - i,
    {
        buf.push(0);
        i = i + 1;
    }
    build_tcp_packet(&mut buf, 0, src_ip, src_port, dst_ip, dst_port);
    proof {
        assert(buf@.subrange(0, buf.len() as int) =~= buf@);
    }
    buf
}

} // verus!
