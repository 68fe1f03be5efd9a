//! The ICMP echo request the scanner emits: type 8, code 0, a fixed zero
//! identifier and sequence number, and a checksum over header and payload
//! that is proved to validate.

use vstd::prelude::*;
use vstd::arithmetic::div_mod::lemma_fundamental_div_mod;
use crate::checksum::{
    checksum_block, checksum_valid, internet_checksum, lemma_checksum_completion,
    lemma_fold_carries_props, lemma_sum_words_bounds, sum_words, word_at,
};

verus! {

/// Length in bytes of an ICMP echo header.
pub const ICMP_HEADER_LEN: usize = 8;

/// The ICMP type of an echo request.
pub const ICMP_TYPE_ECHO_REQUEST: u8 = 8;

/// The ICMP type of an echo reply.
pub const ICMP_TYPE_ECHO_REPLY: u8 = 0;

/// Byte `i` of the ICMP echo request header with checksum field `ck`:
/// type 8, code 0, identifier 0, sequence number 0.
pub open spec fn icmp_echo_header_byte(ck: int, i: int) -> u8 {
    if i == 0 {
        ICMP_TYPE_ECHO_REQUEST
    } else if i == 2 {
        (ck / 0x100) as u8
    } else if i == 3 {
        (ck % 0x100) as u8
    } else {
        0
    }
}

/// A complete ICMP echo request packet: the 8 header bytes with checksum
/// field `ck`, followed by the payload.
pub open spec fn icmp_echo_packet(payload: Seq<u8>, ck: int) -> Seq<u8> {
    Seq::new(ICMP_HEADER_LEN as nat, |i: int| icmp_echo_header_byte(ck, i)) + payload
}

/// The checksum a built echo request carries: the internet checksum over
/// header and payload with a zeroed checksum field.
pub open spec fn icmp_echo_checksum(payload: Seq<u8>) -> int {
    internet_checksum(icmp_echo_packet(payload, 0))
}

/// Every built ICMP echo request validates: the folded word sum over the
/// complete packet, checksum field included, is `0xFFFF`, so the checksum
/// recomputed over the whole frame complements to zero.
pub proof fn lemma_icmp_checksum_validates(payload: Seq<u8>)
    ensures
        checksum_valid(icmp_echo_packet(payload, icmp_echo_checksum(payload))),
{
    let s = icmp_echo_packet(payload, 0);
    let ck = icmp_echo_checksum(payload);
    let t = icmp_echo_packet(payload, ck);
    lemma_sum_words_bounds(s);
    lemma_fold_carries_props(sum_words(s));
    assert(0 <= ck <= 0xFFFF);
    lemma_fundamental_div_mod(ck, 0x100);
    assert(word_at(s, 1) == 0);
    assert(word_at(t, 1) == ck);
    lemma_checksum_completion(s, t, 1);
}

/// Writes an ICMP echo request into the whole of `buf`: the 8 header bytes
/// are set, the bytes after them are kept as the payload, and the checksum
/// field carries the internet checksum over header and payload.
pub fn build_icmp_packet(buf: &mut Vec<u8>)
    requires
        ICMP_HEADER_LEN <= old(buf).len() <= 0x10000,
    ensures
        final(buf).len() == old(buf).len(),
        final(buf)@ == icmp_echo_packet(
            old(buf)@.skip(ICMP_HEADER_LEN as int),
            icmp_echo_checksum(old(buf)@.skip(ICMP_HEADER_LEN as int)),
        ),
{
    let payload = Ghost(buf@.skip(ICMP_HEADER_LEN as int));
    buf[0] = ICMP_TYPE_ECHO_REQUEST;
    buf[1] = 0;
    buf[2] = 0;
    buf[3] = 0;
    buf[4] = 0;
    buf[5] = 0;
    buf[6] = 0;
    buf[7] = 0;
    assert(buf@ =~= icmp_echo_packet(payload@, 0));
    let end = buf.len();
    let ck = checksum_block(buf, 0, end);
    proof {
        assert(buf@.subrange(0, end as int) =~= buf@);
    }
    buf[2] = (ck / 0x100) as u8;
    buf[3] = (ck % 0x100) as u8;
    assert(buf@ =~= icmp_echo_packet(payload@, icmp_echo_checksum(payload@)));
}

} // verus!
