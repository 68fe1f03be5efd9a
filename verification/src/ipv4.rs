//! The IPv4 header the scanner emits: no options, TTL 64, and a header
//! checksum that is proved to validate.

use vstd::prelude::*;
use vstd::arithmetic::div_mod::lemma_fundamental_div_mod;
use crate::IPV4_HEADER_LEN;
use crate::checksum::{
    checksum_block, checksum_valid, internet_checksum, lemma_checksum_completion,
    lemma_fold_carries_props, lemma_sum_words_bounds, word_at,
};

verus! {

/// The transport protocols an IPv4 header of this library can announce.
#[derive(Clone, Copy, Debug, PartialEq, Eq, Structural)]
pub enum IpNextHeaderProtocol {
    Tcp,
    Udp,
    Icmp,
}

/// The wire code of a next-header protocol.
pub open spec fn protocol_code(p: IpNextHeaderProtocol) -> int {
    match p {
        IpNextHeaderProtocol::Tcp => 6,
        IpNextHeaderProtocol::Udp => 17,
        IpNextHeaderProtocol::Icmp => 1,
    }
}

/// Byte `i` of the 20-byte IPv4 header: version 4, header length 5 words,
/// total length `total_len`, no identification or fragmentation, TTL 64,
/// the given protocol, checksum `ck`, source and destination addresses.
pub open spec fn ipv4_header_byte(
    src_ip: u32,
    dst_ip: u32,
    protocol: IpNextHeaderProtocol,
    total_len: u16,
    ck: int,
    i: int,
) -> u8 {
    if i == 0 {
        0x45
    } else if i == 2 {
        (total_len / 0x100) as u8
    } else if i == 3 {
        (total_len % 0x100) as u8
    } else if i == 8 {
        64
    } else if i == 9 {
        protocol_code(protocol) as u8
    } else if i == 10 {
        (ck / 0x100) as u8
    } else if i == 11 {
        (ck % 0x100) as u8
    } else if i == 12 {
        (src_ip / 0x1000000) as u8
    } else if i == 13 {
        ((src_ip / 0x10000) % 0x100) as u8
    } else if i == 14 {
        ((src_ip / 0x100) % 0x100) as u8
    } else if i == 15 {
        (src_ip % 0x100) as u8
    } else if i == 16 {
        (dst_ip / 0x1000000) as u8
    } else if i == 17 {
        ((dst_ip / 0x10000) % 0x100) as u8
    } else if i == 18 {
        ((dst_ip / 0x100) % 0x100) as u8
    } else if i == 19 {
        (dst_ip % 0x100) as u8
    } else {
        0
    }
}

/// The 20 bytes of the IPv4 header with checksum field `ck`.
pub open spec fn ipv4_header(
    src_ip: u32,
    dst_ip: u32,
    protocol: IpNextHeaderProtocol,
    total_len: u16,
    ck: int,
) -> Seq<u8> {
    Seq::new(
        IPV4_HEADER_LEN as nat,
        |i: int| ipv4_header_byte(src_ip, dst_ip, protocol, total_len, ck, i),
    )
}

/// The checksum such a header carries: the internet checksum of the header
/// with a zeroed checksum field.
pub open spec fn ipv4_header_checksum(
    src_ip: u32,
    dst_ip: u32,
    protocol: IpNextHeaderProtocol,
    total_len: u16,
) -> int {
    internet_checksum(ipv4_header(src_ip, dst_ip, protocol, total_len, 0))
}

/// Every IPv4 header built with its own header checksum validates: the
/// folded word sum over the complete header is `0xFFFF`.
pub proof fn lemma_ipv4_checksum_validates(
    src_ip: u32,
    dst_ip: u32,
    protocol: IpNextHeaderProtocol,
    total_len: u16,
)
    ensures
        checksum_valid(
            ipv4_header(
                src_ip,
                dst_ip,
                protocol,
                total_len,
                ipv4_header_checksum(src_ip, dst_ip, protocol, total_len),
            ),
        ),
{
    let s = ipv4_header(src_ip, dst_ip, protocol, total_len, 0);
    let ck = ipv4_header_checksum(src_ip, dst_ip, protocol, total_len);
    let t = ipv4_header(src_ip, dst_ip, protocol, total_len, ck);
    lemma_sum_words_bounds(s);
    lemma_fold_carries_props(crate::checksum::sum_words(s));
    assert(0 <= ck <= 0xFFFF);
    lemma_fundamental_div_mod(ck, 0x100);
    assert(word_at(s, 5) == 0);
    assert(word_at(t, 5) == ck);
    lemma_checksum_completion(s, t, 5);
}

/// Writes an IPv4 header into `buf[start .. start + 20]` for a packet that
/// extends to the end of the buffer: the total-length field is
/// `buf.len() - start`, the checksum field carries the header's own internet
/// checksum. Bytes outside the header are untouched.
#[verifier::rlimit(60)]
pub fn build_ipv4_packet(
    buf: &mut Vec<u8>,
    start: usize,
    src_ip: u32,
    dst_ip: u32,
    protocol: IpNextHeaderProtocol,
)
    requires
        start + IPV4_HEADER_LEN <= old(buf).len(),
        old(buf).len() - start <= 0xFFFF,
    ensures
        final(buf).len() == old(buf).len(),
        final(buf)@.subrange(start as int, start + IPV4_HEADER_LEN as int) == ipv4_header(
            src_ip,
            dst_ip,
            protocol,
            (old(buf).len() - start) as u16,
            ipv4_header_checksum(src_ip, dst_ip, protocol, (old(buf).len() - start) as u16),
        ),
        forall|i: int|
            0 <= i < old(buf).len() && !(start <= i < start + IPV4_HEADER_LEN)
                ==> final(buf)@[i] == old(buf)@[i],
{
    let total_len: u16 = (buf.len() - start) as u16;
    buf[start] = 0x45;
    buf[start + 1] = 0;
    buf[start + 2] = (total_len / 0x100) as u8;
    buf[start + 3] = (total_len % 0x100) as u8;
    buf[start + 4] = 0;
    buf[start + 5] = 0;
    buf[start + 6] = 0;
    buf[start + 7] = 0;
    buf[start + 8] = 64;
    let code: u8 = match protocol {
        IpNextHeaderProtocol::Tcp => 6,
        IpNextHeaderProtocol::Udp => 17,
        IpNextHeaderProtocol::Icmp => 1,
    };
    buf[start + 9] = code;
    buf[start + 10] = 0;
    buf[start + 11] = 0;
    buf[start + 12] = (src_ip / 0x1000000) as u8;
    buf[start + 13] = ((src_ip / 0x10000) % 0x100) as u8;
    buf[start + 14] = ((src_ip / 0x100) % 0x100) as u8;
    buf[start + 15] = (src_ip % 0x100) as u8;
    buf[start + 16] = (dst_ip / 0x1000000) as u8;
    buf[start + 17] = ((dst_ip / 0x10000) % 0x100) as u8;
    buf[start + 18] = ((dst_ip / 0x100) % 0x100) as u8;
    buf[start + 19] = (dst_ip % 0x100) as u8;
    assert(buf@.subrange(start as int, start + IPV4_HEADER_LEN as int)
        =~= ipv4_header(src_ip, dst_ip, protocol, total_len, 0));
    let ck = checksum_block(buf, start, start + IPV4_HEADER_LEN);
    buf[start + 10] = (ck / 0x100) as u8;
    buf[start + 11] = (ck % 0x100) as u8;
    assert(buf@.subrange(start as int, start + IPV4_HEADER_LEN as int)
        =~= ipv4_header(
        src_ip,
        dst_ip,
        protocol,
        total_len,
        ipv4_header_checksum(src_ip, dst_ip, protocol, total_len),
    ));
}

} // verus!
