//! The host-scan engine: classifying ICMP echo replies into a deduplicated
//! list of live hosts, and draining it into a report sorted by address.
//!
//! As with the port scan, the engine is pure state: the surrounding layer
//! owns the channel, feeds inbound frames or transport-level ICMP events to
//! the engine, asks [`HostScanState::check_exit`] whether to leave the
//! receive loop, and drains the result with [`HostScanState::into_result`].

use vstd::prelude::*;
use vstd::multiset::Multiset;
use vstd::seq_lib::group_to_multiset_ensures;
use crate::icmp::ICMP_TYPE_ECHO_REPLY;
use crate::parse::{parse_frame, parse_frame_spec, ParsedTransport};
use crate::result::{HostInfo, HostScanResult, ScanStatus};

verus! {

broadcast use group_to_multiset_ensures;

/// There is already an entry for address `addr`.
pub open spec fn has_host(hosts: Seq<HostInfo>, addr: u32) -> bool {
    exists|i: int| 0 <= i < hosts.len() && hosts[i].ip_addr == addr
}

/// No two entries concern the same address.
pub open spec fn hosts_unique(hosts: Seq<HostInfo>) -> bool {
    forall|i: int, j: int| 0 <= i < j < hosts.len() ==> hosts[i].ip_addr != hosts[j].ip_addr
}

/// The entries are in ascending address order.
pub open spec fn sorted_by_addr(hosts: Seq<HostInfo>) -> bool {
    forall|i: int, j: int| 0 <= i < j < hosts.len() ==> hosts[i].ip_addr <= hosts[j].ip_addr
}

/// The classifier's step on one ICMP packet: an echo reply whose sender is
/// in the target set and has no entry yet is recorded with its TTL; every
/// other packet is ignored, and a host is never recorded twice.
pub open spec fn classify_icmp(
    hosts: Seq<HostInfo>,
    targets: Seq<u32>,
    src_addr: u32,
    ttl: u8,
    icmp_type: u8,
) -> Seq<HostInfo> {
    if icmp_type == ICMP_TYPE_ECHO_REPLY && targets.contains(src_addr) && !has_host(
        hosts,
        src_addr,
    ) {
        hosts.push(HostInfo { ip_addr: src_addr, ttl })
    } else {
        hosts
    }
}

/// The engine's step on one raw inbound frame: parse it, and classify it if
/// it is ICMP over IPv4; every other frame is discarded.
pub open spec fn host_scan_step(hosts: Seq<HostInfo>, targets: Seq<u32>, frame: Seq<u8>) -> Seq<
    HostInfo,
> {
    match parse_frame_spec(frame) {
        Some(ParsedTransport::Icmp { src_addr, ttl, icmp_type }) => classify_icmp(
            hosts,
            targets,
            src_addr,
            ttl,
            icmp_type,
        ),
        _ => hosts,
    }
}

/// Once an echo reply from an address is recorded, any further ICMP packet
/// from the same address — a duplicate reply in particular — changes
/// nothing: one host, one entry.
pub proof fn lemma_host_dedup(
    hosts: Seq<HostInfo>,
    targets: Seq<u32>,
    addr: u32,
    first_ttl: u8,
    second_ttl: u8,
    second_type: u8,
)
    ensures
        classify_icmp(
            classify_icmp(hosts, targets, addr, first_ttl, ICMP_TYPE_ECHO_REPLY),
            targets,
            addr,
            second_ttl,
            second_type,
        ) == classify_icmp(hosts, targets, addr, first_ttl, ICMP_TYPE_ECHO_REPLY),
{
    let once = classify_icmp(hosts, targets, addr, first_ttl, ICMP_TYPE_ECHO_REPLY);
    if once.len() > hosts.len() {
        assert(once[hosts.len() as int].ip_addr == addr);
        assert(has_host(once, addr));
    }
}

/// The classifier keeps entries unique: it never records two entries for
/// one address.
pub proof fn lemma_classify_icmp_preserves_uniqueness(
    hosts: Seq<HostInfo>,
    targets: Seq<u32>,
    src_addr: u32,
    ttl: u8,
    icmp_type: u8,
)
    requires
        hosts_unique(hosts),
    ensures
        hosts_unique(classify_icmp(hosts, targets, src_addr, ttl, icmp_type)),
{
    let stepped = classify_icmp(hosts, targets, src_addr, ttl, icmp_type);
    if stepped.len() > hosts.len() {
        assert forall|i: int, j: int| 0 <= i < j < stepped.len() implies stepped[i].ip_addr
            != stepped[j].ip_addr by {
            if j == hosts.len() {
                assert(!has_host(hosts, src_addr));
                assert(hosts[i].ip_addr != src_addr);
            }
        }
    }
}

/// Reordering a list of entries with pairwise distinct addresses keeps the
/// addresses pairwise distinct.
proof fn lemma_permutation_keeps_uniqueness(a: Seq<HostInfo>, b: Seq<HostInfo>)
    requires
        a.to_multiset() == b.to_multiset(),
        hosts_unique(a),
    ensures
        hosts_unique(b),
{
    assert(a.no_duplicates()) by {
        assert forall|i: int, j: int|
            0 <= i < a.len() && 0 <= j < a.len() && i != j implies a[i] != a[j] by {
            if i < j {
                assert(a[i].ip_addr != a[j].ip_addr);
            } else {
                assert(a[j].ip_addr != a[i].ip_addr);
            }
        }
    }
    a.lemma_multiset_has_no_duplicates();
    b.lemma_multiset_has_no_duplicates_conv();
    assert forall|i: int, j: int| 0 <= i < j < b.len() implies b[i].ip_addr != b[j].ip_addr by {
        if b[i].ip_addr == b[j].ip_addr {
            assert(b[i] != b[j]);
            assert(b.contains(b[i]));
            assert(b.contains(b[j]));
            assert(b.to_multiset().contains(b[i]));
            assert(b.to_multiset().contains(b[j]));
            assert(a.contains(b[i]));
            assert(a.contains(b[j]));
            let x = choose|x: int| 0 <= x < a.len() && a[x] == b[i];
            let y = choose|y: int| 0 <= y < a.len() && a[y] == b[j];
            assert(a[x].ip_addr == a[y].ip_addr && x != y);
        }
    }
}

/// Sorts host entries by ascending address; the result is a permutation of
/// the input.
fn sort_hosts(hosts: Vec<HostInfo>) -> (r: Vec<HostInfo>)
    ensures
        sorted_by_addr(r@),
        r@.to_multiset() == hosts@.to_multiset(),
{
    let ghost orig = hosts@;
    let mut rest = hosts;
    let mut out: Vec<HostInfo> = Vec::new();
    while rest.len() > 0
        invariant
            out@.to_multiset().add(rest@.to_multiset()) == orig.to_multiset(),
            sorted_by_addr(out@),
            forall|i: int, j: int|
                0 <= i < out@.len() && 0 <= j < rest@.len() ==> out@[i].ip_addr
                    <= rest@[j].ip_addr,
        decreases rest@.len(),
    {
        let mut m: usize = 0;
        let mut k: usize = 1;
        while k < rest.len()
            invariant
                0 < rest@.len(),
                m < k <= rest@.len(),
                forall|j: int| 0 <= j < k ==> rest@[m as int].ip_addr <= rest@[j].ip_addr,
            decreases rest@.len() - k,
        {
            if rest[k].ip_addr < rest[m].ip_addr {
                m = k;
            }
            k = k + 1;
        }
        let ghost rest_before = rest@;
        let ghost out_before = out@;
        let h = rest.remove(m);
        out.push(h);
        proof {
            assert(rest_before.contains(h)) by {
                assert(rest_before[m as int] == h);
            }
            assert(out@.to_multiset().add(rest@.to_multiset()) =~= orig.to_multiset()) by {
                assert(out@.to_multiset() == out_before.to_multiset().insert(h));
                assert(rest@.to_multiset() == rest_before.to_multiset().remove(h));
                assert(rest_before.to_multiset().count(h) > 0);
            }
            assert forall|i: int, j: int|
                0 <= i < j < out@.len() implies out@[i].ip_addr <= out@[j].ip_addr by {
                if j == out@.len() - 1 {
                    assert(out@[i] == out_before[i]);
                    assert(out_before[i].ip_addr <= rest_before[m as int].ip_addr);
                }
            }
            assert forall|i: int, j: int|
                0 <= i < out@.len() && 0 <= j < rest@.len() implies out@[i].ip_addr
                    <= rest@[j].ip_addr by {
                assert(rest@[j] == if j < m { rest_before[j] } else { rest_before[j + 1] });
                if i == out@.len() - 1 {
                    assert(out@[i] == rest_before[m as int]);
                }
            }
        }
    }
    proof {
        assert(rest@.to_multiset() =~= Multiset::<HostInfo>::empty()) by {
            assert(rest@.to_multiset().len() == 0);
        }
        assert(out@.to_multiset() =~= orig.to_multiset());
    }
    out
}

/// The mutable state of one host scan: the target set, the hosts recorded
/// so far, and the scan's status.
pub struct HostScanState {
    pub target_hosts: Vec<u32>,
    pub up_hosts: Vec<HostInfo>,
    pub scan_status: ScanStatus,
}

impl HostScanState {
    /// The recorded list never holds two entries for one address.
    pub open spec fn well_formed(&self) -> bool {
        hosts_unique(self.up_hosts@)
    }

    /// A fresh scan of the given target addresses: nothing recorded,
    /// status `Ready`.
    pub fn new(target_hosts: Vec<u32>) -> (r: HostScanState)
        ensures
            r.target_hosts@ == target_hosts@,
            r.up_hosts@ == Seq::<HostInfo>::empty(),
            r.scan_status is Ready,
            r.well_formed(),
    {
        HostScanState { target_hosts, up_hosts: Vec::new(), scan_status: ScanStatus::Ready }
    }

    /// Classifies one ICMP packet, exactly as [`classify_icmp`] says: an
    /// echo reply from a target not yet recorded is appended, everything
    /// else is ignored.
    pub fn handle_icmp_packet(&mut self, src_addr: u32, ttl: u8, icmp_type: u8)
        ensures
            final(self).up_hosts@ == classify_icmp(
                old(self).up_hosts@,
                old(self).target_hosts@,
                src_addr,
                ttl,
                icmp_type,
            ),
            final(self).target_hosts@ == old(self).target_hosts@,
            final(self).scan_status == old(self).scan_status,
            old(self).well_formed() ==> final(self).well_formed(),
    {
        proof {
            if old(self).well_formed() {
                lemma_classify_icmp_preserves_uniqueness(
                    self.up_hosts@,
                    self.target_hosts@,
                    src_addr,
                    ttl,
                    icmp_type,
                );
            }
        }
        if icmp_type != ICMP_TYPE_ECHO_REPLY {
            return ;
        }
        let mut i: usize = 0;
        let mut found: bool = false;
        while i < self.target_hosts.len()
            invariant
                i <= self.target_hosts@.len(),
                found == exists|k: int| 0 <= k < i && self.target_hosts@[k] == src_addr,
            decreases self.target_hosts@.len() - i,
        {
            if self.target_hosts[i] == src_addr {
                found = true;
            }
            i = i + 1;
        }
        if !found {
            assert(!self.target_hosts@.contains(src_addr));
            return ;
        }
        let mut j: usize = 0;
        while j < self.up_hosts.len()
            invariant
                j <= self.up_hosts@.len(),
                forall|k: int| 0 <= k < j ==> self.up_hosts@[k].ip_addr != src_addr,
            decreases self.up_hosts@.len() - j,
        {
            if self.up_hosts[j].ip_addr == src_addr {
                return ;
            }
            j = j + 1;
        }
        assert(!has_host(self.up_hosts@, src_addr));
        self.up_hosts.push(HostInfo { ip_addr: src_addr, ttl });
    }

    /// Feeds one raw inbound frame to the engine: parse, then classify
    /// ICMP content; TCP and UDP content and unparseable frames are
    /// discarded.
    pub fn handle_frame(&mut self, frame: &Vec<u8>)
        ensures
            final(self).up_hosts@ == host_scan_step(
                old(self).up_hosts@,
                old(self).target_hosts@,
                frame@,
            ),
            final(self).target_hosts@ == old(self).target_hosts@,
            final(self).scan_status == old(self).scan_status,
            old(self).well_formed() ==> final(self).well_formed(),
    {
        match parse_frame(frame) {
            Some(ParsedTransport::Icmp { src_addr, ttl, icmp_type }) => {
                self.handle_icmp_packet(src_addr, ttl, icmp_type);
            },
            _ => {},
        }
    }

    /// The receive loop's exit decision, taken after each frame: leave when
    /// the stop flag was observed or the wall clock ran out. Observing the
    /// stop flag ends the scan `Done`; an elapsed timeout without the stop
    /// flag ends it `Timeout`; otherwise the status is untouched and the
    /// loop goes on. The hosts recorded so far are kept in every case.
    pub fn check_exit(&mut self, stop: bool, timed_out: bool) -> (exit: bool)
        ensures
            exit == (stop || timed_out),
            stop ==> final(self).scan_status is Done,
            !stop && timed_out ==> final(self).scan_status is Timeout,
            !stop && !timed_out ==> final(self).scan_status == old(self).scan_status,
            final(self).up_hosts@ == old(self).up_hosts@,
            final(self).target_hosts@ == old(self).target_hosts@,
    {
        if stop {
            self.scan_status = ScanStatus::Done;
            true
        } else if timed_out {
            self.scan_status = ScanStatus::Timeout;
            true
        } else {
            false
        }
    }

    /// Drains the engine into a caller-facing result: the recorded hosts
    /// sorted in ascending address order, the scan's status, and the given
    /// duration.
    pub fn into_result(self, scan_time: u64) -> (r: HostScanResult)
        ensures
            sorted_by_addr(r.hosts@),
            r.hosts@.to_multiset() == self.up_hosts@.to_multiset(),
            self.well_formed() ==> hosts_unique(r.hosts@),
            r.scan_status == self.scan_status,
            r.scan_time == scan_time,
    {
        let ghost before = self.up_hosts@;
        let hosts = sort_hosts(self.up_hosts);
        proof {
            if hosts_unique(before) {
                lemma_permutation_keeps_uniqueness(before, hosts@);
            }
        }
        HostScanResult { hosts, scan_time, scan_status: self.scan_status }
    }
}

} // verus!
