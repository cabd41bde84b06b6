//! The system snapshot collector: what a snapshot is made of, given what the
//! host reported.
//!
//! Reading the host is not done here. The readings come in as plain values,
//! and this module says what goes into the snapshot: the disk totals, the
//! processes up to a cap, the well-known ports that are in use, and the
//! addresses that are worth reporting.

use crate::models::{ProcessInfo, SoftwareInfo};
use crate::protocol::SystemSnapshotData;
use crate::text::{
    ascending, drop_repeats, sort_texts, starts_with_text, texts_of, without_repeats,
    without_repeats_keeps_members,
};
use vstd::prelude::*;
use vstd::string::*;

verus! {

/// The most processes that a snapshot holds. A snapshot does not hold the
/// whole process table.
pub const PROCESS_LIMIT: usize = 100;

/// The name that stands for a hostname or a system name that the host does
/// not tell.
pub open spec fn unknown_name() -> Seq<char> {
    "unknown"@
}

/// A name that the host told, or `unknown`.
pub fn or_unknown(name: Option<String>) -> (r: String)
    ensures
        r@ == match name {
            Some(n) => n@,
            None => unknown_name(),
        },
{
    match name {
        Some(n) => n,
        None => String::from_str("unknown"),
    }
}

/// The ports that a snapshot samples: a fixed list of well-known ports, not
/// a scan.
pub open spec fn sampled_ports() -> Seq<u16> {
    seq![22u16, 80u16, 443u16, 3306u16, 5432u16, 8080u16, 8443u16, 3000u16, 5000u16, 6379u16, 27017u16]
}

/// The ports that a snapshot samples.
pub fn well_known_ports() -> (r: Vec<u16>)
    ensures
        r@ == sampled_ports(),
{
    let mut ports: Vec<u16> = Vec::new();
    ports.push(22);
    ports.push(80);
    ports.push(443);
    ports.push(3306);
    ports.push(5432);
    ports.push(8080);
    ports.push(8443);
    ports.push(3000);
    ports.push(5000);
    ports.push(6379);
    ports.push(27017);
    assert(ports@ =~= sampled_ports());
    ports
}

/// What an attempt to bind a port on the loopback address came to.
#[derive(Debug, Clone, Copy)]
pub struct PortProbe {
    pub port: u16,
    pub bind_succeeded: bool,
}

/// A port is in use when binding it failed.
pub open spec fn in_use(probe: PortProbe) -> bool {
    !probe.bind_succeeded
}

/// The ports in use among those probed, in the order of the probes.
pub open spec fn ports_in_use(probes: Seq<PortProbe>) -> Seq<u16>
    decreases probes.len(),
{
    if probes.len() == 0 {
        Seq::empty()
    } else if in_use(probes.last()) {
        ports_in_use(probes.drop_last()).push(probes.last().port)
    } else {
        ports_in_use(probes.drop_last())
    }
}

/// Whether binding the port failed.
pub fn is_port_in_use(probe: &PortProbe) -> (r: bool)
    ensures
        r == in_use(*probe),
{
    !probe.bind_succeeded
}

/// The ports in use among those probed. Where the probes are of the sampled
/// ports, every port in the answer is one of the fixed list.
pub fn collect_open_ports(probes: &Vec<PortProbe>) -> (r: Vec<u16>)
    ensures
        r@ == ports_in_use(probes@),
        probed_ports(probes@) == sampled_ports() ==> forall|port: u16| #[trigger]
            r@.contains(port) ==> sampled_ports().contains(port),
{
    proof {
        if probed_ports(probes@) == sampled_ports() {
            open_ports_are_sampled(probes@);
        }
    }
    let mut ports: Vec<u16> = Vec::new();
    let mut i: usize = 0;
    assert(probes@.take(0) =~= Seq::<PortProbe>::empty());
    while i < probes.len()
        invariant
            i <= probes.len(),
            ports@ == ports_in_use(probes@.take(i as int)),
        decreases probes.len() - i,
    {
        proof {
            assert(probes@.take(i + 1).drop_last() =~= probes@.take(i as int));
            assert(probes@.take(i + 1).last() == probes@[i as int]);
        }
        if is_port_in_use(&probes[i]) {
            ports.push(probes[i].port);
        }
        i += 1;
    }
    proof {
        assert(probes@.take(probes@.len() as int) =~= probes@);
    }
    ports
}

/// The ports that were probed, in the order of the probes.
pub open spec fn probed_ports(probes: Seq<PortProbe>) -> Seq<u16> {
    Seq::new(probes.len(), |i: int| probes[i].port)
}

/// Whether the probes are of the sampled ports: of each port of the fixed
/// list one probe, in the order of the list.
pub fn samples_well_known_ports(probes: &Vec<PortProbe>) -> (r: bool)
    ensures
        r == (probed_ports(probes@) == sampled_ports()),
{
    let ports = well_known_ports();
    if probes.len() != ports.len() {
        return false;
    }
    let mut i: usize = 0;
    while i < probes.len()
        invariant
            i <= probes.len(),
            probes@.len() == ports@.len(),
            ports@ == sampled_ports(),
            forall|j: int| 0 <= j < i ==> (#[trigger] probes@[j]).port == ports@[j],
        decreases probes.len() - i,
    {
        if probes[i].port != ports[i] {
            assert(probed_ports(probes@)[i as int] != sampled_ports()[i as int]);
            return false;
        }
        i += 1;
    }
    assert(probed_ports(probes@) =~= sampled_ports());
    true
}

/// A port is reported as open exactly when a probe of it found it in use.
pub proof fn open_ports_were_probed(probes: Seq<PortProbe>, port: u16)
    ensures
        ports_in_use(probes).contains(port) <==> exists|i: int|
            0 <= i < probes.len() && (#[trigger] probes[i]).port == port && in_use(probes[i]),
    decreases probes.len(),
{
    if probes.len() > 0 {
        let rest = probes.drop_last();
        let last = probes.len() - 1;
        let found = ports_in_use(probes);
        let before = ports_in_use(rest);
        open_ports_were_probed(rest, port);
        if found.contains(port) {
            let k = choose|k: int| 0 <= k < found.len() && found[k] == port;
            if in_use(probes[last]) && k == found.len() - 1 {
                assert(probes[last].port == port);
            } else {
                assert(before[k] == port);
                assert(before.contains(port));
                let i = choose|i: int|
                    0 <= i < rest.len() && (#[trigger] rest[i]).port == port && in_use(rest[i]);
                assert(probes[i].port == port && in_use(probes[i]));
            }
        }
        if exists|i: int|
            0 <= i < probes.len() && (#[trigger] probes[i]).port == port && in_use(probes[i]) {
            let i = choose|i: int|
                0 <= i < probes.len() && (#[trigger] probes[i]).port == port && in_use(probes[i]);
            if i < last {
                assert(rest[i].port == port && in_use(rest[i]));
                assert(before.contains(port));
                let k = choose|k: int| 0 <= k < before.len() && before[k] == port;
                assert(found[k] == port);
            } else {
                assert(found[found.len() - 1] == port);
            }
            assert(found.contains(port));
        }
    } else {
        assert(!ports_in_use(probes).contains(port));
    }
}

/// Where the probes are of the sampled ports, every port that is reported as
/// open is one of the fixed list: the sample is no scan.
pub proof fn open_ports_are_sampled(probes: Seq<PortProbe>)
    requires
        probed_ports(probes) == sampled_ports(),
    ensures
        forall|port: u16| #[trigger]
            ports_in_use(probes).contains(port) ==> sampled_ports().contains(port),
        ports_in_use(probes).len() <= sampled_ports().len(),
{
    assert forall|port: u16| #[trigger] ports_in_use(probes).contains(port) implies sampled_ports().contains(
        port,
    ) by {
        open_ports_were_probed(probes, port);
        let i = choose|i: int|
            0 <= i < probes.len() && (#[trigger] probes[i]).port == port && in_use(probes[i]);
        assert(probed_ports(probes)[i] == port);
        assert(sampled_ports()[i] == port);
    }
    open_ports_within_probes(probes);
    assert(probed_ports(probes).len() == probes.len());
}

/// No more ports are reported than were probed.
pub proof fn open_ports_within_probes(probes: Seq<PortProbe>)
    ensures
        ports_in_use(probes).len() <= probes.len(),
    decreases probes.len(),
{
    if probes.len() > 0 {
        open_ports_within_probes(probes.drop_last());
    }
}

/// The space of one disk, in bytes.
#[derive(Debug, Clone, Copy)]
pub struct DiskReading {
    pub total_space: u64,
    pub available_space: u64,
}

/// The used space of a disk: its total less what is available, and nothing
/// where more is reported available than there is.
pub open spec fn used_space(disk: DiskReading) -> nat {
    if disk.available_space <= disk.total_space {
        (disk.total_space - disk.available_space) as nat
    } else {
        0
    }
}

/// The total space of all disks.
pub open spec fn total_of(disks: Seq<DiskReading>) -> nat
    decreases disks.len(),
{
    if disks.len() == 0 {
        0
    } else {
        total_of(disks.drop_last()) + disks.last().total_space as nat
    }
}

/// The used space of all disks.
pub open spec fn used_of(disks: Seq<DiskReading>) -> nat
    decreases disks.len(),
{
    if disks.len() == 0 {
        0
    } else {
        used_of(disks.drop_last()) + used_space(disks.last())
    }
}

/// A sum as a snapshot holds it: the sum itself, or the largest number that
/// the field can hold where the sum is larger.
pub open spec fn capped(n: nat) -> u64 {
    if n <= u64::MAX {
        n as u64
    } else {
        u64::MAX
    }
}

/// The total and the used space of all disks.
pub fn disk_totals(disks: &Vec<DiskReading>) -> (r: (u64, u64))
    ensures
        r.0 == capped(total_of(disks@)),
        r.1 == capped(used_of(disks@)),
{
    let mut total: u64 = 0;
    let mut used: u64 = 0;
    let mut i: usize = 0;
    assert(disks@.take(0) =~= Seq::<DiskReading>::empty());
    while i < disks.len()
        invariant
            i <= disks.len(),
            total == capped(total_of(disks@.take(i as int))),
            used == capped(used_of(disks@.take(i as int))),
        decreases disks.len() - i,
    {
        proof {
            assert(disks@.take(i + 1).drop_last() =~= disks@.take(i as int));
            assert(disks@.take(i + 1).last() == disks@[i as int]);
        }
        let disk = disks[i];
        let disk_used = if disk.available_space <= disk.total_space {
            disk.total_space - disk.available_space
        } else {
            0
        };
        total = if total <= u64::MAX - disk.total_space {
            total + disk.total_space
        } else {
            u64::MAX
        };
        used = if used <= u64::MAX - disk_used {
            used + disk_used
        } else {
            u64::MAX
        };
        i += 1;
    }
    proof {
        assert(disks@.take(disks@.len() as int) =~= disks@);
    }
    (total, used)
}

/// The processes that a snapshot holds: the first `PROCESS_LIMIT` of those
/// reported, in the order in which they were reported.
pub open spec fn kept_processes(processes: Seq<ProcessInfo>) -> Seq<ProcessInfo> {
    if processes.len() <= PROCESS_LIMIT {
        processes
    } else {
        processes.take(PROCESS_LIMIT as int)
    }
}

/// Cuts the process list down to what a snapshot holds.
pub fn cap_processes(processes: Vec<ProcessInfo>) -> (r: Vec<ProcessInfo>)
    ensures
        r@ == kept_processes(processes@),
{
    let ghost all = processes@;
    let mut kept = processes;
    if kept.len() > PROCESS_LIMIT {
        kept.truncate(PROCESS_LIMIT);
        assert(kept@ =~= all.take(PROCESS_LIMIT as int));
    }
    kept
}

/// The address is a loopback address: it lies in 127.0.0.0/8, or it is ::1.
/// Addresses are texts, written as the standard library writes them: four
/// decimal numbers with dots, or groups of hexadecimal digits with colons, in
/// the shortest form.
pub open spec fn loopback(address: Seq<char>) -> bool {
    "127."@.is_prefix_of(address) || address == "::1"@
}

/// The character is a hexadecimal digit, in either case.
pub open spec fn is_hex_digit(c: char) -> bool {
    ('0' <= c && c <= '9') || ('a' <= c && c <= 'f') || ('A' <= c && c <= 'F')
}

/// The text begins with a group of four hexadecimal digits from fe80 to
/// febf, in either case, and a colon: the address lies in fe80::/10.
pub open spec fn in_fe80_block(address: Seq<char>) -> bool {
    &&& address.len() >= 5
    &&& (address[0] == 'f' || address[0] == 'F')
    &&& (address[1] == 'e' || address[1] == 'E')
    &&& (address[2] == '8' || address[2] == '9' || address[2] == 'a' || address[2] == 'A'
        || address[2] == 'b' || address[2] == 'B')
    &&& is_hex_digit(address[3])
    &&& address[4] == ':'
}

/// The address is a link-local address: it lies in 169.254.0.0/16 or in
/// fe80::/10.
pub open spec fn link_local(address: Seq<char>) -> bool {
    "169.254."@.is_prefix_of(address) || in_fe80_block(address)
}

/// An address is reported unless it is a loopback or a link-local address.
pub open spec fn reportable(address: Seq<char>) -> bool {
    !loopback(address) && !link_local(address)
}

/// Whether the text begins with a group from fe80 to febf and a colon.
pub fn begins_in_fe80_block(address: &str) -> (r: bool)
    ensures
        r == in_fe80_block(address@),
{
    if address.unicode_len() < 5 {
        return false;
    }
    let c0 = address.get_char(0);
    let c1 = address.get_char(1);
    let c2 = address.get_char(2);
    let c3 = address.get_char(3);
    let c4 = address.get_char(4);
    (c0 == 'f' || c0 == 'F') && (c1 == 'e' || c1 == 'E') && (c2 == '8' || c2 == '9' || c2 == 'a'
        || c2 == 'A' || c2 == 'b' || c2 == 'B') && (('0' <= c3 && c3 <= '9') || ('a' <= c3 && c3
        <= 'f') || ('A' <= c3 && c3 <= 'F')) && c4 == ':'
}

/// Whether the address is reported.
pub fn is_reportable(address: &str) -> (r: bool)
    ensures
        r == reportable(address@),
{
    !starts_with_text(address, "127.") && !address.eq("::1") && !starts_with_text(
        address,
        "169.254.",
    ) && !begins_in_fe80_block(address)
}

/// The reportable addresses among those given, in the order given.
pub open spec fn reported(addresses: Seq<Seq<char>>) -> Seq<Seq<char>>
    decreases addresses.len(),
{
    if addresses.len() == 0 {
        Seq::empty()
    } else if reportable(addresses.last()) {
        reported(addresses.drop_last()).push(addresses.last())
    } else {
        reported(addresses.drop_last())
    }
}

/// The reportable addresses are those given that are reportable.
pub proof fn reported_members(addresses: Seq<Seq<char>>, a: Seq<char>)
    ensures
        reported(addresses).contains(a) <==> addresses.contains(a) && reportable(a),
    decreases addresses.len(),
{
    if addresses.len() > 0 {
        let rest = addresses.drop_last();
        let last = addresses.len() - 1;
        let reduced = reported(rest);
        let w = reported(addresses);
        reported_members(rest, a);
        if addresses.contains(a) && reportable(a) {
            let i = choose|i: int| 0 <= i < addresses.len() && addresses[i] == a;
            if i < last {
                assert(rest[i] == a);
                assert(rest.contains(a));
                let k = choose|k: int| 0 <= k < reduced.len() && reduced[k] == a;
                if reportable(addresses[last]) {
                    assert(w[k] == a);
                }
                assert(w.contains(a));
            } else {
                assert(w[w.len() - 1] == a);
                assert(w.contains(a));
            }
        }
        if w.contains(a) {
            let k = choose|k: int| 0 <= k < w.len() && w[k] == a;
            if !reportable(addresses[last]) || k < reduced.len() {
                assert(reduced[k] == a);
                assert(reduced.contains(a));
                let j = choose|j: int| 0 <= j < rest.len() && rest[j] == a;
                assert(addresses[j] == a);
                assert(addresses.contains(a));
            } else {
                assert(addresses[last] == a);
                assert(addresses.contains(a));
            }
        }
    } else {
        assert(!addresses.contains(a));
        assert(!reported(addresses).contains(a));
    }
}

/// The addresses that an agent reports of its host: those that are neither
/// loopback nor link-local, in ascending order, each once.
pub fn get_ip_addresses(addresses: &Vec<String>) -> (r: Vec<String>)
    ensures
        exists|sorted: Seq<Seq<char>>|
            {
                &&& ascending(sorted)
                &&& sorted.to_multiset() == reported(texts_of(addresses@)).to_multiset()
                &&& #[trigger] without_repeats(sorted) == texts_of(r@)
            },
        forall|a: Seq<char>| #[trigger]
            texts_of(r@).contains(a) <==> texts_of(addresses@).contains(a) && reportable(a),
{
    let mut kept: Vec<String> = Vec::new();
    let mut i: usize = 0;
    assert(texts_of(addresses@).take(0) =~= Seq::<Seq<char>>::empty());
    while i < addresses.len()
        invariant
            i <= addresses.len(),
            texts_of(kept@) == reported(texts_of(addresses@).take(i as int)),
        decreases addresses.len() - i,
    {
        let ghost all = texts_of(addresses@);
        let ghost before = texts_of(kept@);
        proof {
            assert(all.take(i + 1).drop_last() =~= all.take(i as int));
            assert(all.take(i + 1).last() == addresses@[i as int]@);
        }
        if is_reportable(addresses[i].as_str()) {
            kept.push(addresses[i].clone());
            assert(texts_of(kept@) =~= before.push(addresses@[i as int]@));
        }
        i += 1;
    }
    proof {
        assert(texts_of(addresses@).take(addresses@.len() as int) =~= texts_of(addresses@));
    }
    let ghost filtered = texts_of(kept@);
    sort_texts(&mut kept);
    let ghost sorted = texts_of(kept@);
    drop_repeats(&mut kept);
    proof {
        assert(without_repeats(sorted) == texts_of(kept@));
        assert forall|a: Seq<char>| #[trigger]
            texts_of(kept@).contains(a) <==> texts_of(addresses@).contains(a) && reportable(
                a,
            ) by {
            without_repeats_keeps_members(sorted, a);
            sorted.to_multiset_ensures();
            filtered.to_multiset_ensures();
            reported_members(texts_of(addresses@), a);
            assert(sorted.contains(a) <==> sorted.to_multiset().count(a) > 0);
            assert(filtered.contains(a) <==> filtered.to_multiset().count(a) > 0);
        }
    }
    kept
}

/// What the host reported, as far as a snapshot needs it.
#[derive(Debug)]
pub struct HostReadings {
    pub cpu_usage_bits: u32,
    pub memory_total: u64,
    pub memory_used: u64,
    pub disks: Vec<DiskReading>,
    pub processes: Vec<ProcessInfo>,
    pub port_probes: Vec<PortProbe>,
}

/// The snapshot of what the host reported at `now`. The open ports are those
/// of the probes that found their port in use; where the probes are of the
/// sampled ports, as `samples_well_known_ports` tests, they are ports of the
/// fixed list. Installed software is not collected: the list is empty.
pub fn collect_snapshot(readings: HostReadings, now: i64) -> (r: SystemSnapshotData)
    ensures
        r.collected_at == now,
        r.cpu_usage_bits == readings.cpu_usage_bits,
        r.memory_total == readings.memory_total,
        r.memory_used == readings.memory_used,
        r.disk_total == capped(total_of(readings.disks@)),
        r.disk_used == capped(used_of(readings.disks@)),
        r.processes@ == kept_processes(readings.processes@),
        r.open_ports@ == ports_in_use(readings.port_probes@),
        probed_ports(readings.port_probes@) == sampled_ports() ==> forall|port: u16| #[trigger]
            r.open_ports@.contains(port) ==> sampled_ports().contains(port),
        r.installed_software@.len() == 0,
{
    proof {
        if probed_ports(readings.port_probes@) == sampled_ports() {
            open_ports_are_sampled(readings.port_probes@);
        }
    }
    let (disk_total, disk_used) = disk_totals(&readings.disks);
    let open_ports = collect_open_ports(&readings.port_probes);
    let installed_software: Vec<SoftwareInfo> = Vec::new();
    SystemSnapshotData {
        collected_at: now,
        cpu_usage_bits: readings.cpu_usage_bits,
        memory_total: readings.memory_total,
        memory_used: readings.memory_used,
        disk_total,
        disk_used,
        processes: cap_processes(readings.processes),
        open_ports,
        installed_software,
    }
}

/// A snapshot holds at most `PROCESS_LIMIT` processes, however many the host
/// reported.
pub proof fn processes_are_capped(processes: Seq<ProcessInfo>)
    ensures
        kept_processes(processes).len() <= PROCESS_LIMIT,
        kept_processes(processes).len() <= processes.len(),
        kept_processes(processes).is_prefix_of(processes),
{
}

} // verus!
