//! The value types a scan produces: statuses, per-port and per-host
//! verdicts, and the result containers handed back to callers.

use vstd::prelude::*;

verus! {

/// Lifecycle of one scan invocation. A scan starts `Ready`, becomes `Done`
/// when the sender finished and the stop flag was observed before the
/// timeout, `Timeout` when the wall clock exceeded the caller's budget
/// first, and `Error` when the channel could not be acquired at all.
/// Terminal once set; never reverts.
#[derive(Clone, Copy, Debug, PartialEq, Eq, Structural)]
pub enum ScanStatus {
    Ready,
    Done,
    Timeout,
    Error,
}

/// The kind of port scan. Only SYN scanning is carried out by this engine;
/// full-connect scanning belongs to the surrounding layer.
#[derive(Clone, Copy, Debug, PartialEq, Eq, Structural)]
pub enum PortScanType {
    SynScan,
    ConnectScan,
}

/// Verdict on a port that replied. `Filtered` is the implicit complement —
/// no reply within the scan window — and is never recorded by the
/// classifier, only inferred by callers from a port's absence.
#[derive(Clone, Copy, Debug, PartialEq, Eq, Structural)]
pub enum PortStatus {
    Open,
    Closed,
    Filtered,
}

/// One verdict per distinct responding port.
#[derive(Clone, Copy, Debug, PartialEq, Eq, Structural)]
pub struct PortInfo {
    pub port: u16,
    pub status: PortStatus,
}

/// One entry per distinct host that answered an echo request. The address
/// is an IPv4 address as a 32-bit number in network byte order.
#[derive(Clone, Copy, Debug, PartialEq, Eq, Structural)]
pub struct HostInfo {
    pub ip_addr: u32,
    pub ttl: u8,
}

/// Result of a host scan: the hosts that answered, the scan's duration in
/// milliseconds, and its terminal status.
#[derive(Clone, Debug)]
pub struct HostScanResult {
    pub hosts: Vec<HostInfo>,
    pub scan_time: u64,
    pub scan_status: ScanStatus,
}

impl HostScanResult {
    /// An empty result in the `Ready` state.
    pub fn new() -> (r: HostScanResult)
        ensures
            r.hosts@ == Seq::<HostInfo>::empty(),
            r.scan_time == 0,
            r.scan_status is Ready,
    {
        HostScanResult { hosts: Vec::new(), scan_time: 0, scan_status: ScanStatus::Ready }
    }
}

/// Result of a port scan against one address.
#[derive(Clone, Debug)]
pub struct PortScanResult {
    pub ip_addr: u32,
    pub ports: Vec<PortInfo>,
    pub scan_time: u64,
    pub scan_status: ScanStatus,
}

impl PortScanResult {
    /// An empty result in the `Ready` state, addressed to the loopback host.
    pub fn new() -> (r: PortScanResult)
        ensures
            r.ip_addr == 0x7F000001u32,
            r.ports@ == Seq::<PortInfo>::empty(),
            r.scan_time == 0,
            r.scan_status is Ready,
    {
        PortScanResult {
            ip_addr: 0x7F000001,
            ports: Vec::new(),
            scan_time: 0,
            scan_status: ScanStatus::Ready,
        }
    }
}

/// Both results of a combined scan, together with the target address and
/// port sets they were built from. The sets hold no duplicates.
#[derive(Clone, Debug)]
pub struct ScanResult {
    pub host_scan_result: HostScanResult,
    pub port_scan_result: PortScanResult,
    pub ip_set: Vec<u32>,
    pub port_set: Vec<u16>,
}

impl ScanResult {
    /// The target sets hold each address and each port at most once.
    pub open spec fn well_formed(&self) -> bool {
        &&& forall|i: int, j: int|
            0 <= i < j < self.ip_set@.len() ==> self.ip_set@[i] != self.ip_set@[j]
        &&& forall|i: int, j: int|
            0 <= i < j < self.port_set@.len() ==> self.port_set@[i] != self.port_set@[j]
    }

    /// Empty results in the `Ready` state with empty target sets.
    pub fn new() -> (r: ScanResult)
        ensures
            r.well_formed(),
            r.host_scan_result.hosts@ == Seq::<HostInfo>::empty(),
            r.host_scan_result.scan_status is Ready,
            r.port_scan_result.ports@ == Seq::<PortInfo>::empty(),
            r.port_scan_result.scan_status is Ready,
            r.ip_set@ == Seq::<u32>::empty(),
            r.port_set@ == Seq::<u16>::empty(),
    {
        ScanResult {
            host_scan_result: HostScanResult::new(),
            port_scan_result: PortScanResult::new(),
            ip_set: Vec::new(),
            port_set: Vec::new(),
        }
    }
}

} // verus!
