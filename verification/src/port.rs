//! The port-scan engine: building SYN probe frames for a port range and
//! classifying the TCP replies into open/closed verdicts.
//!
//! The engine is pure state: the surrounding layer owns the channel, feeds
//! every inbound frame to [`PortScanState::handle_frame`], asks
//! [`PortScanState::check_exit`] whether to leave the receive loop, and
//! finally drains the verdicts with [`PortScanState::into_result`].

use vstd::prelude::*;
use crate::{ETHERNET_HEADER_LEN, IPV4_HEADER_LEN};
use crate::ethernet::{build_ethernet_packet, ethernet_header, EtherType, MacAddr};
use crate::ipv4::{build_ipv4_packet, ipv4_header, ipv4_header_checksum, IpNextHeaderProtocol};
use crate::parse::{parse_frame, parse_frame_spec, ParsedTransport};
use crate::result::{PortInfo, PortScanResult, PortScanType, PortStatus, ScanStatus};
use crate::tcp::{
    build_tcp_packet, tcp_syn_checksum, tcp_syn_segment, TCP_FLAGS_RST_ACK, TCP_FLAGS_SYN_ACK,
    TCP_HEADER_LEN,
};

verus! {

/// Length in bytes of one complete SYN probe frame.
pub const SYN_FRAME_LEN: usize = 66;

/// Everything one port scan needs to know: addresses, the port range to
/// probe (inclusive on both ends), the scan kind, and the wall-clock budget
/// in milliseconds.
pub struct TcpOptions {
    pub sender_mac: MacAddr,
    pub target_mac: MacAddr,
    pub src_ip: u32,
    pub dst_ip: u32,
    pub src_port: u16,
    pub min_port_num: u16,
    pub max_port_num: u16,
    pub scan_type: PortScanType,
    pub timeout: u64,
}

/// The complete 66-byte SYN probe frame for one target port: Ethernet
/// header to the target's hardware address, IPv4 header, TCP SYN segment.
pub open spec fn syn_frame(opts: TcpOptions, target_port: u16) -> Seq<u8> {
    ethernet_header(opts.target_mac, opts.sender_mac, EtherType::Ipv4) + ipv4_header(
        opts.src_ip,
        opts.dst_ip,
        IpNextHeaderProtocol::Tcp,
        (IPV4_HEADER_LEN + TCP_HEADER_LEN) as u16,
        ipv4_header_checksum(
            opts.src_ip,
            opts.dst_ip,
            IpNextHeaderProtocol::Tcp,
            (IPV4_HEADER_LEN + TCP_HEADER_LEN) as u16,
        ),
    ) + tcp_syn_segment(
        opts.src_port,
        target_port,
        tcp_syn_checksum(opts.src_ip, opts.dst_ip, opts.src_port, target_port),
    )
}

/// Writes the complete SYN probe frame for `target_port` into the 66-byte
/// buffer `tmp_packet`.
pub fn build_packet(tcp_options: &TcpOptions, tmp_packet: &mut Vec<u8>, target_port: u16)
    requires
        old(tmp_packet).len() == SYN_FRAME_LEN,
        tcp_options.scan_type is SynScan,
    ensures
        final(tmp_packet)@ == syn_frame(*tcp_options, target_port),
{
    build_ethernet_packet(tmp_packet, 0, tcp_options.sender_mac, tcp_options.target_mac,
        EtherType::Ipv4);
    build_ipv4_packet(tmp_packet, ETHERNET_HEADER_LEN, tcp_options.src_ip, tcp_options.dst_ip,
        IpNextHeaderProtocol::Tcp);
    build_tcp_packet(tmp_packet, ETHERNET_HEADER_LEN + IPV4_HEADER_LEN, tcp_options.src_ip,
        tcp_options.src_port, tcp_options.dst_ip, target_port);
    assert(tmp_packet@ =~= syn_frame(*tcp_options, target_port));
}

/// Builds the probe frames of one scan, one per target port, in ascending
/// port order: the sender transmits them in exactly this order.
pub fn build_probe_frames(tcp_options: &TcpOptions) -> (r: Vec<Vec<u8>>)
    requires
        tcp_options.min_port_num <= tcp_options.max_port_num,
        tcp_options.scan_type is SynScan,
    ensures
        r.len() == tcp_options.max_port_num - tcp_options.min_port_num + 1,
        forall|i: int|
            0 <= i < r.len() ==> r[i]@ == syn_frame(
                *tcp_options,
                (tcp_options.min_port_num + i) as u16,
            ),
{
    let mut frames: Vec<Vec<u8>> = Vec::new();
    let mut port: u32 = tcp_options.min_port_num as u32;
    while port <= tcp_options.max_port_num as u32
        invariant
            tcp_options.min_port_num <= port,
            port <= tcp_options.max_port_num + 1,
            tcp_options.scan_type is SynScan,
            frames.len() == port - tcp_options.min_port_num,
            forall|i: int|
                0 <= i < frames.len() ==> frames[i]@ == syn_frame(
                    *tcp_options,
                    (tcp_options.min_port_num + i) as u16,
                ),
        decreases tcp_options.max_port_num + 1 - port,
    {
        let mut buf: Vec<u8> = Vec::new();
        let mut j: usize = 0;
        while j < SYN_FRAME_LEN
            invariant
                buf.len() == j,
                j <= SYN_FRAME_LEN,
            decreases SYN_FRAME_LEN - j,
        {
            buf.push(0);
            j = j + 1;
        }
        build_packet(tcp_options, &mut buf, port as u16);
        frames.push(buf);
        port = port + 1;
    }
    frames
}

/// There is already a verdict for port `p`.
pub open spec fn has_port(ports: Seq<PortInfo>, p: u16) -> bool {
    exists|i: int| 0 <= i < ports.len() && ports[i].port == p
}

/// No two verdicts concern the same port number.
pub open spec fn ports_unique(ports: Seq<PortInfo>) -> bool {
    forall|i: int, j: int| 0 <= i < j < ports.len() ==> ports[i].port != ports[j].port
}

/// The classifier's step on one parsed TCP segment. A reply counts only if
/// it is addressed to the scan's own source port; SYN+ACK records the
/// sender's port as open, RST+ACK as closed, anything else is ignored; and
/// a port with a verdict is never given a second one.
pub open spec fn classify_tcp(
    ports: Seq<PortInfo>,
    own_port: u16,
    src_port: u16,
    dst_port: u16,
    flags: u8,
) -> Seq<PortInfo> {
    if dst_port == own_port && flags == TCP_FLAGS_SYN_ACK && !has_port(ports, src_port) {
        ports.push(PortInfo { port: src_port, status: PortStatus::Open })
    } else if dst_port == own_port && flags == TCP_FLAGS_RST_ACK && !has_port(ports, src_port) {
        ports.push(PortInfo { port: src_port, status: PortStatus::Closed })
    } else {
        ports
    }
}

/// The engine's step on one raw inbound frame: parse it, and classify it if
/// it is a TCP segment; every other frame is discarded.
pub open spec fn port_scan_step(ports: Seq<PortInfo>, own_port: u16, frame: Seq<u8>) -> Seq<
    PortInfo,
> {
    match parse_frame_spec(frame) {
        Some(ParsedTransport::Tcp { src_port, dst_port, flags }) => classify_tcp(
            ports,
            own_port,
            src_port,
            dst_port,
            flags,
        ),
        _ => ports,
    }
}

/// Feeding the classifier the same TCP reply twice leaves exactly what one
/// feeding left: the second application changes nothing.
pub proof fn lemma_classifier_idempotent(
    ports: Seq<PortInfo>,
    own_port: u16,
    src_port: u16,
    dst_port: u16,
    flags: u8,
)
    ensures
        classify_tcp(
            classify_tcp(ports, own_port, src_port, dst_port, flags),
            own_port,
            src_port,
            dst_port,
            flags,
        ) == classify_tcp(ports, own_port, src_port, dst_port, flags),
{
    let once = classify_tcp(ports, own_port, src_port, dst_port, flags);
    if once.len() > ports.len() {
        assert(once[ports.len() as int].port == src_port);
        assert(has_port(once, src_port));
    }
}

/// Once a port has a verdict, a later reply for the same port — matching or
/// conflicting — is ignored: the first verdict wins, in either order of
/// SYN+ACK and RST+ACK.
pub proof fn lemma_first_verdict_wins(
    ports: Seq<PortInfo>,
    own_port: u16,
    p: u16,
    first_flags: u8,
    second_flags: u8,
)
    requires
        first_flags == TCP_FLAGS_SYN_ACK || first_flags == TCP_FLAGS_RST_ACK,
    ensures
        classify_tcp(
            classify_tcp(ports, own_port, p, own_port, first_flags),
            own_port,
            p,
            own_port,
            second_flags,
        ) == classify_tcp(ports, own_port, p, own_port, first_flags),
{
    let once = classify_tcp(ports, own_port, p, own_port, first_flags);
    if once.len() > ports.len() {
        assert(once[ports.len() as int].port == p);
        assert(has_port(once, p));
    } else {
        assert(has_port(ports, p));
    }
}

/// The classifier keeps verdicts unique: it never records two verdicts for
/// one port number.
pub proof fn lemma_classify_tcp_preserves_uniqueness(
    ports: Seq<PortInfo>,
    own_port: u16,
    src_port: u16,
    dst_port: u16,
    flags: u8,
)
    requires
        ports_unique(ports),
    ensures
        ports_unique(classify_tcp(ports, own_port, src_port, dst_port, flags)),
{
    let stepped = classify_tcp(ports, own_port, src_port, dst_port, flags);
    if stepped.len() > ports.len() {
        assert forall|i: int, j: int| 0 <= i < j < stepped.len() implies stepped[i].port
            != stepped[j].port by {
            if j == ports.len() {
                assert(!has_port(ports, src_port));
                assert(ports[i].port != src_port);
            }
        }
    }
}

/// The mutable state of one port scan: the scan's own source port, the
/// verdicts collected so far, and the scan's status.
pub struct PortScanState {
    pub src_port: u16,
    pub ports: Vec<PortInfo>,
    pub scan_status: ScanStatus,
}

impl PortScanState {
    /// The verdict list never holds two entries for one port.
    pub open spec fn well_formed(&self) -> bool {
        ports_unique(self.ports@)
    }

    /// A fresh scan for replies addressed to `src_port`: no verdicts,
    /// status `Ready`.
    pub fn new(src_port: u16) -> (r: PortScanState)
        ensures
            r.src_port == src_port,
            r.ports@ == Seq::<PortInfo>::empty(),
            r.scan_status is Ready,
            r.well_formed(),
    {
        PortScanState { src_port, ports: Vec::new(), scan_status: ScanStatus::Ready }
    }

    /// Classifies one parsed TCP reply, exactly as [`classify_tcp`] says:
    /// append-if-absent, first verdict wins.
    pub fn handle_tcp_packet(&mut self, src_port: u16, dst_port: u16, flags: u8)
        ensures
            final(self).ports@ == classify_tcp(
                old(self).ports@,
                old(self).src_port,
                src_port,
                dst_port,
                flags,
            ),
            final(self).src_port == old(self).src_port,
            final(self).scan_status == old(self).scan_status,
            old(self).well_formed() ==> final(self).well_formed(),
    {
        proof {
            if old(self).well_formed() {
                lemma_classify_tcp_preserves_uniqueness(
                    self.ports@,
                    self.src_port,
                    src_port,
                    dst_port,
                    flags,
                );
            }
        }
        if dst_port != self.src_port {
            return ;
        }
        if flags != TCP_FLAGS_SYN_ACK && flags != TCP_FLAGS_RST_ACK {
            return ;
        }
        let mut i: usize = 0;
        while i < self.ports.len()
            invariant
                i <= self.ports@.len(),
                forall|k: int| 0 <= k < i ==> self.ports@[k].port != src_port,
            decreases self.ports@.len() - i,
        {
            if self.ports[i].port == src_port {
                return ;
            }
            i = i + 1;
        }
        assert(!has_port(self.ports@, src_port));
        if flags == TCP_FLAGS_SYN_ACK {
            self.ports.push(PortInfo { port: src_port, status: PortStatus::Open });
        } else {
            self.ports.push(PortInfo { port: src_port, status: PortStatus::Closed });
        }
    }

    /// Feeds one raw inbound frame to the engine: parse, then classify TCP
    /// replies; UDP and ICMP content and unparseable frames are discarded.
    pub fn handle_frame(&mut self, frame: &Vec<u8>)
        ensures
            final(self).ports@ == port_scan_step(old(self).ports@, old(self).src_port, frame@),
            final(self).src_port == old(self).src_port,
            final(self).scan_status == old(self).scan_status,
            old(self).well_formed() ==> final(self).well_formed(),
    {
        match parse_frame(frame) {
            Some(ParsedTransport::Tcp { src_port, dst_port, flags }) => {
                self.handle_tcp_packet(src_port, dst_port, flags);
            },
            _ => {},
        }
    }

    /// The receive loop's exit decision, taken after each frame: leave when
    /// the stop flag was observed or the wall clock ran out. Observing the
    /// stop flag ends the scan `Done`; an elapsed timeout without the stop
    /// flag ends it `Timeout`; otherwise the status is untouched and the
    /// loop goes on. The verdicts collected so far are kept in every case.
    pub fn check_exit(&mut self, stop: bool, timed_out: bool) -> (exit: bool)
        ensures
            exit == (stop || timed_out),
            stop ==> final(self).scan_status is Done,
            !stop && timed_out ==> final(self).scan_status is Timeout,
            !stop && !timed_out ==> final(self).scan_status == old(self).scan_status,
            final(self).ports@ == old(self).ports@,
            final(self).src_port == old(self).src_port,
    {
        if stop {
            self.scan_status = ScanStatus::Done;
            true
        } else if timed_out {
            self.scan_status = ScanStatus::Timeout;
            true
        } else {
            false
        }
    }

    /// Drains the engine into a caller-facing result: the verdicts in
    /// first-seen order, the scan's status, and the given target address
    /// and duration.
    pub fn into_result(self, ip_addr: u32, scan_time: u64) -> (r: PortScanResult)
        ensures
            r.ports@ == self.ports@,
            r.scan_status == self.scan_status,
            r.ip_addr == ip_addr,
            r.scan_time == scan_time,
    {
        PortScanResult { ip_addr, ports: self.ports, scan_time, scan_status: self.scan_status }
    }
}

} // verus!
