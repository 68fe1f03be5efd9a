//! Scenario tests of the classifier engines: dedup, first-verdict-wins,
//! stop/timeout precedence, and the end-to-end scan outcomes.

use netscan::host::HostScanState;
use netscan::port::PortScanState;
use netscan::result::{
    HostInfo, HostScanResult, PortInfo, PortScanResult, PortStatus, ScanResult, ScanStatus,
};

fn tcp_reply_frame(src_ip: [u8; 4], src_port: u16, dst_port: u16, flags: u8) -> Vec<u8> {
    let mut f = vec![0u8; 54];
    f[12] = 0x08;
    f[13] = 0x00;
    f[14] = 0x45;
    f[22] = 64;
    f[23] = 6;
    f[26..30].copy_from_slice(&src_ip);
    f[34] = (src_port >> 8) as u8;
    f[35] = (src_port & 0xFF) as u8;
    f[36] = (dst_port >> 8) as u8;
    f[37] = (dst_port & 0xFF) as u8;
    f[47] = flags;
    f
}

fn icmp_frame(src_ip: [u8; 4], ttl: u8, icmp_type: u8) -> Vec<u8> {
    let mut f = vec![0u8; 42];
    f[12] = 0x08;
    f[13] = 0x00;
    f[14] = 0x45;
    f[22] = ttl;
    f[23] = 1;
    f[26..30].copy_from_slice(&src_ip);
    f[34] = icmp_type;
    f
}

const OWN_PORT: u16 = 53211;
const SYN_ACK: u8 = 0x12;
const RST_ACK: u8 = 0x14;

#[test]
fn same_syn_ack_twice_yields_one_open_verdict() {
    let mut state = PortScanState::new(OWN_PORT);
    let frame = tcp_reply_frame([10, 0, 0, 1], 80, OWN_PORT, SYN_ACK);
    state.handle_frame(&frame);
    state.handle_frame(&frame);
    assert_eq!(state.ports, vec![PortInfo { port: 80, status: PortStatus::Open }]);
}

#[test]
fn syn_ack_then_rst_ack_keeps_first_verdict() {
    let mut state = PortScanState::new(OWN_PORT);
    state.handle_frame(&tcp_reply_frame([10, 0, 0, 1], 80, OWN_PORT, SYN_ACK));
    state.handle_frame(&tcp_reply_frame([10, 0, 0, 1], 80, OWN_PORT, RST_ACK));
    assert_eq!(state.ports, vec![PortInfo { port: 80, status: PortStatus::Open }]);
}

#[test]
fn rst_ack_then_syn_ack_keeps_first_verdict() {
    let mut state = PortScanState::new(OWN_PORT);
    state.handle_frame(&tcp_reply_frame([10, 0, 0, 1], 80, OWN_PORT, RST_ACK));
    state.handle_frame(&tcp_reply_frame([10, 0, 0, 1], 80, OWN_PORT, SYN_ACK));
    assert_eq!(state.ports, vec![PortInfo { port: 80, status: PortStatus::Closed }]);
}

#[test]
fn replies_to_other_ports_or_with_other_flags_are_ignored() {
    let mut state = PortScanState::new(OWN_PORT);
    // Addressed to someone else's port.
    state.handle_frame(&tcp_reply_frame([10, 0, 0, 1], 80, 9999, SYN_ACK));
    // Plain ACK, plain RST, plain SYN: not classified.
    state.handle_frame(&tcp_reply_frame([10, 0, 0, 1], 81, OWN_PORT, 0x10));
    state.handle_frame(&tcp_reply_frame([10, 0, 0, 1], 82, OWN_PORT, 0x04));
    state.handle_frame(&tcp_reply_frame([10, 0, 0, 1], 83, OWN_PORT, 0x02));
    // A UDP datagram is recognized but not classified.
    let mut udp = tcp_reply_frame([10, 0, 0, 1], 84, OWN_PORT, SYN_ACK);
    udp[23] = 17;
    state.handle_frame(&udp);
    assert!(state.ports.is_empty());
}

#[test]
fn timeout_without_stop_ends_in_timeout_and_keeps_results() {
    let mut state = PortScanState::new(OWN_PORT);
    state.handle_frame(&tcp_reply_frame([10, 0, 0, 1], 80, OWN_PORT, SYN_ACK));
    // The sender never finishes: the stop flag is never observed.
    assert!(!state.check_exit(false, false));
    assert_eq!(state.scan_status, ScanStatus::Ready);
    assert!(state.check_exit(false, true));
    assert_eq!(state.scan_status, ScanStatus::Timeout);
    let result = state.into_result(0x0A000001, 30000);
    assert_eq!(result.scan_status, ScanStatus::Timeout);
    assert_eq!(result.ports, vec![PortInfo { port: 80, status: PortStatus::Open }]);
}

#[test]
fn stop_observed_first_ends_in_done() {
    let mut state = PortScanState::new(OWN_PORT);
    // The loop polls the stop flag before the clock: stop wins.
    assert!(state.check_exit(true, true));
    assert_eq!(state.scan_status, ScanStatus::Done);
}

#[test]
fn port_scan_end_to_end() {
    // Target ports 22, 80, 443; the host answers 80 with SYN+ACK, 443 with
    // RST+ACK, and swallows 22.
    let mut state = PortScanState::new(OWN_PORT);
    state.handle_frame(&tcp_reply_frame([10, 0, 0, 1], 80, OWN_PORT, SYN_ACK));
    state.handle_frame(&tcp_reply_frame([10, 0, 0, 1], 443, OWN_PORT, RST_ACK));
    assert!(state.check_exit(true, false));
    let result = state.into_result(0x0A000001, 1500);
    assert_eq!(result.scan_status, ScanStatus::Done);
    assert_eq!(result.ports.len(), 2);
    assert_eq!(result.ports[0], PortInfo { port: 80, status: PortStatus::Open });
    assert_eq!(result.ports[1], PortInfo { port: 443, status: PortStatus::Closed });
    assert!(result.ports.iter().all(|p| p.port != 22)); // filtered by silence
    assert_eq!(result.ip_addr, 0x0A000001);
    assert_eq!(result.scan_time, 1500);
}

#[test]
fn duplicate_echo_replies_yield_one_host_entry() {
    let targets = vec![0x0A000001u32, 0x0A000002u32];
    let mut state = HostScanState::new(targets);
    state.handle_frame(&icmp_frame([10, 0, 0, 1], 64, 0));
    state.handle_frame(&icmp_frame([10, 0, 0, 1], 64, 0));
    assert_eq!(state.up_hosts, vec![HostInfo { ip_addr: 0x0A000001, ttl: 64 }]);
}

#[test]
fn host_list_is_sorted_ascending_by_address() {
    let targets = vec![0x0A000001u32, 0x0A000002u32, 0x0A000003u32];
    let mut state = HostScanState::new(targets);
    state.handle_frame(&icmp_frame([10, 0, 0, 3], 60, 0));
    state.handle_frame(&icmp_frame([10, 0, 0, 1], 64, 0));
    state.handle_frame(&icmp_frame([10, 0, 0, 2], 62, 0));
    assert!(state.check_exit(true, false));
    let result = state.into_result(900);
    assert_eq!(
        result.hosts,
        vec![
            HostInfo { ip_addr: 0x0A000001, ttl: 64 },
            HostInfo { ip_addr: 0x0A000002, ttl: 62 },
            HostInfo { ip_addr: 0x0A000003, ttl: 60 },
        ]
    );
    assert_eq!(result.scan_status, ScanStatus::Done);
}

#[test]
fn echoes_from_strangers_and_requests_are_ignored() {
    let targets = vec![0x0A000001u32];
    let mut state = HostScanState::new(targets);
    // Not in the target set.
    state.handle_frame(&icmp_frame([10, 0, 0, 9], 64, 0));
    // An echo request, not a reply.
    state.handle_frame(&icmp_frame([10, 0, 0, 1], 64, 8));
    assert!(state.up_hosts.is_empty());
}

#[test]
fn host_scan_end_to_end_timeout() {
    // Target hosts 10.0.0.1 and 10.0.0.2; only the first replies before the
    // timeout fires, and the stop flag is never observed.
    let targets = vec![0x0A000001u32, 0x0A000002u32];
    let mut state = HostScanState::new(targets);
    state.handle_frame(&icmp_frame([10, 0, 0, 1], 64, 0));
    assert!(!state.check_exit(false, false));
    assert!(state.check_exit(false, true));
    let result = state.into_result(30000);
    assert_eq!(result.hosts, vec![HostInfo { ip_addr: 0x0A000001, ttl: 64 }]);
    assert_eq!(result.scan_status, ScanStatus::Timeout);
}

#[test]
fn host_scan_end_to_end_done() {
    // The same scenario, but the sender's stop signal arrives in time.
    let targets = vec![0x0A000001u32, 0x0A000002u32];
    let mut state = HostScanState::new(targets);
    state.handle_frame(&icmp_frame([10, 0, 0, 1], 64, 0));
    assert!(state.check_exit(true, false));
    let result = state.into_result(400);
    assert_eq!(result.hosts, vec![HostInfo { ip_addr: 0x0A000001, ttl: 64 }]);
    assert_eq!(result.scan_status, ScanStatus::Done);
}

#[test]
fn result_constructors_start_ready_and_empty() {
    let h = HostScanResult::new();
    assert!(h.hosts.is_empty());
    assert_eq!(h.scan_time, 0);
    assert_eq!(h.scan_status, ScanStatus::Ready);
    let p = PortScanResult::new();
    assert_eq!(p.ip_addr, 0x7F000001);
    assert!(p.ports.is_empty());
    assert_eq!(p.scan_time, 0);
    assert_eq!(p.scan_status, ScanStatus::Ready);
    let s = ScanResult::new();
    assert!(s.host_scan_result.hosts.is_empty());
    assert!(s.port_scan_result.ports.is_empty());
    assert!(s.ip_set.is_empty());
    assert!(s.port_set.is_empty());
}
