//! The Ethernet header: destination and source hardware addresses followed
//! by the EtherType of the carried payload.

use vstd::prelude::*;
use crate::ETHERNET_HEADER_LEN;

verus! {

/// A link-layer hardware address.
#[derive(Clone, Copy, Debug, PartialEq, Eq)]
pub struct MacAddr {
    pub octets: [u8; 6],
}

/// The EtherType values the scanner emits or understands.
#[derive(Clone, Copy, Debug, PartialEq, Eq, Structural)]
pub enum EtherType {
    Ipv4,
    Ipv6,
}

/// The wire code of an EtherType.
pub open spec fn ether_type_code(t: EtherType) -> int {
    match t {
        EtherType::Ipv4 => 0x0800,
        EtherType::Ipv6 => 0x86DD,
    }
}

/// Byte `i` of an Ethernet header: destination address, source address,
/// EtherType in big-endian order.
pub open spec fn ethernet_header_byte(dst_mac: MacAddr, src_mac: MacAddr, t: EtherType, i: int) -> u8 {
    if 0 <= i < 6 {
        dst_mac.octets@[i]
    } else if 6 <= i < 12 {
        src_mac.octets@[i - 6]
    } else if i == 12 {
        (ether_type_code(t) / 0x100) as u8
    } else {
        (ether_type_code(t) % 0x100) as u8
    }
}

/// The 14 bytes of an Ethernet header.
pub open spec fn ethernet_header(dst_mac: MacAddr, src_mac: MacAddr, t: EtherType) -> Seq<u8> {
    Seq::new(ETHERNET_HEADER_LEN as nat, |i: int| ethernet_header_byte(dst_mac, src_mac, t, i))
}

/// Writes an Ethernet header into `buf[start .. start + 14]`: destination
/// `dst_mac`, source `src_mac`, the given EtherType. Bytes outside that
/// range are untouched.
pub fn build_ethernet_packet(
    buf: &mut Vec<u8>,
    start: usize,
    src_mac: MacAddr,
    dst_mac: MacAddr,
    ether_type: EtherType,
)
    requires
        start + ETHERNET_HEADER_LEN <= old(buf).len(),
    ensures
        final(buf).len() == old(buf).len(),
        final(buf)@.subrange(start as int, start + ETHERNET_HEADER_LEN as int)
            == ethernet_header(dst_mac, src_mac, ether_type),
        forall|i: int|
            0 <= i < old(buf).len() && !(start <= i < start + ETHERNET_HEADER_LEN)
                ==> final(buf)@[i] == old(buf)@[i],
{
    buf[start] = dst_mac.octets[0];
    buf[start + 1] = dst_mac.octets[1];
    buf[start + 2] = dst_mac.octets[2];
    buf[start + 3] = dst_mac.octets[3];
    buf[start + 4] = dst_mac.octets[4];
    buf[start + 5] = dst_mac.octets[5];
    buf[start + 6] = src_mac.octets[0];
    buf[start + 7] = src_mac.octets[1];
    buf[start + 8] = src_mac.octets[2];
    buf[start + 9] = src_mac.octets[3];
    buf[start + 10] = src_mac.octets[4];
    buf[start + 11] = src_mac.octets[5];
    let code: u16 = match ether_type {
        EtherType::Ipv4 => 0x0800,
        EtherType::Ipv6 => 0x86DD,
    };
    buf[start + 12] = (code / 0x100) as u8;
    buf[start + 13] = (code % 0x100) as u8;
    assert(buf@.subrange(start as int, start + ETHERNET_HEADER_LEN as int)
        =~= ethernet_header(dst_mac, src_mac, ether_type));
}

} // verus!
