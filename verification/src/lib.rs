//! A raw-packet network probing engine.
//!
//! The library builds ICMP echo request and TCP SYN probe frames byte by
//! byte, proves that their internet checksums validate, parses inbound
//! frames down to the transport layer, and classifies replies into
//! host-up / port-open / port-closed verdicts. The surrounding I/O
//! (raw sockets, link-layer channels, timers) lives outside the library
//! and feeds it plain byte buffers and events.

pub mod checksum;
pub mod ethernet;
pub mod host;
pub mod icmp;
pub mod ipv4;
pub mod parse;
pub mod port;
pub mod result;
pub mod tcp;

use vstd::prelude::*;

verus! {

/// Length in bytes of an Ethernet header.
pub const ETHERNET_HEADER_LEN: usize = 14;

/// Length in bytes of an IPv4 header without options.
pub const IPV4_HEADER_LEN: usize = 20;

} // verus!

