//! What is derived from the rows that a store keeps: records from rows whose
//! columns may be empty, the latest result of each check, the statistics of
//! a day, and the snapshots that are old enough to go.
//!
//! Results and snapshots are append-only logs. Nothing here changes a row;
//! the latest result of a check is a view of the log, not a row of its own.

use crate::models::{
    AdminRole, AdminUser, CheckResult, CheckStatus, Endpoint, EndpointStatus, ProcessInfo,
    SoftwareInfo, SystemSnapshot,
};
use vstd::prelude::*;

verus! {

/// Milliseconds in a day.
pub const MILLIS_PER_DAY: i64 = 86400000;

/// An endpoint as the store keeps it: every column but the identifier and
/// the hostname may be empty.
#[derive(Debug)]
pub struct EndpointRow {
    pub id: u128,
    pub hostname: String,
    pub os: Option<String>,
    pub os_version: Option<String>,
    pub agent_version: Option<String>,
    pub ip_addresses: Option<Vec<String>>,
    pub last_seen: Option<i64>,
    pub status: Option<String>,
    pub created_at: Option<i64>,
}

impl EndpointRow {
    /// The status of the row: offline where the column is empty or holds no
    /// known name.
    pub open spec fn status_of(self) -> EndpointStatus {
        match self.status {
            Some(name) => match EndpointStatus::named(name@) {
                Some(status) => status,
                None => EndpointStatus::Offline,
            },
            None => EndpointStatus::Offline,
        }
    }

    /// The endpoint that the row stands for. An empty list of addresses
    /// stands for none, and an empty date of creation for `now`.
    pub fn into_endpoint(self, now: i64) -> (r: Endpoint)
        ensures
            r.id == self.id,
            r.hostname == self.hostname,
            r.os == self.os,
            r.os_version == self.os_version,
            r.agent_version == self.agent_version,
            match self.ip_addresses {
                Some(list) => r.ip_addresses == list,
                None => r.ip_addresses@.len() == 0,
            },
            r.last_seen == self.last_seen,
            r.status == self.status_of(),
            r.created_at == match self.created_at {
                Some(t) => t,
                None => now,
            },
    {
        let status = match &self.status {
            Some(name) => match EndpointStatus::from_str(name.as_str()) {
                Ok(status) => status,
                Err(_) => EndpointStatus::Offline,
            },
            None => EndpointStatus::Offline,
        };
        Endpoint {
            id: self.id,
            hostname: self.hostname,
            os: self.os,
            os_version: self.os_version,
            agent_version: self.agent_version,
            ip_addresses: match self.ip_addresses {
                Some(list) => list,
                None => Vec::new(),
            },
            last_seen: self.last_seen,
            status,
            created_at: match self.created_at {
                Some(t) => t,
                None => now,
            },
        }
    }
}

/// An admin user as the store keeps it.
#[derive(Debug)]
pub struct UserRow {
    pub id: u128,
    pub username: String,
    pub password_hash: String,
    pub role: Option<String>,
    pub created_at: Option<i64>,
}

impl UserRow {
    /// The role of the row: viewer where the column is empty or holds no
    /// known name.
    pub open spec fn role_of(self) -> AdminRole {
        match self.role {
            Some(name) => match AdminRole::named(name@) {
                Some(role) => role,
                None => AdminRole::Viewer,
            },
            None => AdminRole::Viewer,
        }
    }

    /// The user that the row stands for.
    pub fn into_user(self, now: i64) -> (r: AdminUser)
        ensures
            r.id == self.id,
            r.username == self.username,
            r.password_hash == self.password_hash,
            r.role == self.role_of(),
            r.created_at == match self.created_at {
                Some(t) => t,
                None => now,
            },
    {
        let role = match &self.role {
            Some(name) => match AdminRole::from_str(name.as_str()) {
                Ok(role) => role,
                Err(_) => AdminRole::Viewer,
            },
            None => AdminRole::Viewer,
        };
        AdminUser {
            id: self.id,
            username: self.username,
            password_hash: self.password_hash,
            role,
            created_at: match self.created_at {
                Some(t) => t,
                None => now,
            },
        }
    }
}

/// A snapshot as the store keeps it: every measure may be empty, and
/// amounts are kept as signed numbers.
#[derive(Debug)]
pub struct SnapshotRow {
    pub id: u128,
    pub endpoint_id: u128,
    pub cpu_usage_bits: Option<u32>,
    pub memory_total: Option<i64>,
    pub memory_used: Option<i64>,
    pub disk_total: Option<i64>,
    pub disk_used: Option<i64>,
    pub processes: Option<Vec<ProcessInfo>>,
    pub open_ports: Option<Vec<u16>>,
    pub installed_software: Option<Vec<SoftwareInfo>>,
    pub collected_at: i64,
}

/// The amount that a column stands for: nothing where it is empty, and the
/// amount that the store kept as a signed number otherwise.
pub open spec fn amount_of(column: Option<i64>) -> u64 {
    match column {
        Some(n) => if n >= 0 {
            n as u64
        } else {
            (n + 0x1_0000_0000_0000_0000) as u64
        },
        None => 0,
    }
}

/// The signed number under which the store keeps an amount.
pub open spec fn column_of(amount: u64) -> i64 {
    if amount <= i64::MAX {
        amount as i64
    } else {
        (amount - 0x1_0000_0000_0000_0000) as i64
    }
}

/// The amount that a column stands for.
pub fn amount_from_column(value: Option<i64>) -> (r: u64)
    ensures
        r == amount_of(value),
{
    match value {
        Some(n) => if n >= 0 {
            n as u64
        } else {
            // The two's complement of a negative number, taken apart so that
            // no step leaves the range of its type.
            let below: u64 = (-(n + 1)) as u64;
            u64::MAX - below
        },
        None => 0,
    }
}

/// The signed number under which the store keeps an amount.
pub fn column_from_amount(amount: u64) -> (r: i64)
    ensures
        r == column_of(amount),
{
    if amount <= 9223372036854775807 {
        amount as i64
    } else {
        let above: u64 = u64::MAX - amount;
        -(above as i64) - 1
    }
}

/// An amount comes back from the store as it went in.
pub proof fn amounts_survive_the_store(amount: u64)
    ensures
        amount_of(Some(column_of(amount))) == amount,
{
}

impl SnapshotRow {
    /// The snapshot that the row stands for. An empty measure stands for
    /// nothing: no load, no space, no processes, no ports, no software.
    pub fn into_snapshot(self) -> (r: SystemSnapshot)
        ensures
            r.endpoint_id == self.endpoint_id,
            r.collected_at == self.collected_at,
            r.cpu_usage_bits == match self.cpu_usage_bits {
                Some(bits) => bits,
                None => 0,
            },
            r.memory_total == amount_of(self.memory_total),
            r.memory_used == amount_of(self.memory_used),
            r.disk_total == amount_of(self.disk_total),
            r.disk_used == amount_of(self.disk_used),
            match self.processes {
                Some(list) => r.processes == list,
                None => r.processes@.len() == 0,
            },
            match self.open_ports {
                Some(list) => r.open_ports == list,
                None => r.open_ports@.len() == 0,
            },
            match self.installed_software {
                Some(list) => r.installed_software == list,
                None => r.installed_software@.len() == 0,
            },
    {
        SystemSnapshot {
            endpoint_id: self.endpoint_id,
            collected_at: self.collected_at,
            cpu_usage_bits: match self.cpu_usage_bits {
                Some(bits) => bits,
                None => 0,
            },
            memory_total: amount_from_column(self.memory_total),
            memory_used: amount_from_column(self.memory_used),
            disk_total: amount_from_column(self.disk_total),
            disk_used: amount_from_column(self.disk_used),
            processes: match self.processes {
                Some(list) => list,
                None => Vec::new(),
            },
            open_ports: match self.open_ports {
                Some(list) => list,
                None => Vec::new(),
            },
            installed_software: match self.installed_software {
                Some(list) => list,
                None => Vec::new(),
            },
        }
    }
}

/// The time before which something is older than `days` days at `now`.
pub open spec fn days_before(now: i64, days: i64) -> int {
    now - days * MILLIS_PER_DAY
}

/// Whether something of the time `at` is older than `days` days at `now`.
pub fn is_outdated(at: i64, now: i64, days: i64) -> (r: bool)
    ensures
        r == (at < days_before(now, days)),
{
    (at as i128) < (now as i128) - (days as i128) * 86400000
}

/// The snapshots that are not older than the cutoff, in their order.
pub open spec fn retained(snapshots: Seq<SystemSnapshot>, cutoff: int) -> Seq<SystemSnapshot>
    decreases snapshots.len(),
{
    if snapshots.len() == 0 {
        Seq::empty()
    } else if snapshots.last().collected_at < cutoff {
        retained(snapshots.drop_last(), cutoff)
    } else {
        retained(snapshots.drop_last(), cutoff).push(snapshots.last())
    }
}

/// No more snapshots are retained than there are.
pub proof fn retained_within(snapshots: Seq<SystemSnapshot>, cutoff: int)
    ensures
        retained(snapshots, cutoff).len() <= snapshots.len(),
    decreases snapshots.len(),
{
    if snapshots.len() > 0 {
        retained_within(snapshots.drop_last(), cutoff);
    }
}

/// Removes the snapshots that were collected more than `days_to_keep` days
/// before `now`. The answer is the number of snapshots removed.
pub fn cleanup_old_snapshots(snapshots: &mut Vec<SystemSnapshot>, now: i64, days_to_keep: i64) -> (r:
    u64)
    ensures
        final(snapshots)@ == retained(old(snapshots)@, days_before(now, days_to_keep)),
        r == old(snapshots)@.len() - final(snapshots)@.len(),
{
    let ghost all = snapshots@;
    let ghost cutoff = days_before(now, days_to_keep);
    let mut reversed: Vec<SystemSnapshot> = Vec::new();
    let mut removed: u64 = 0;
    let n = snapshots.len();
    while snapshots.len() > 0
        invariant
            n == all.len(),
            snapshots@.len() <= all.len(),
            snapshots@ == all.take(snapshots@.len() as int),
            cutoff == days_before(now, days_to_keep),
            retained(all, cutoff) == retained(snapshots@, cutoff) + reversed@.reverse(),
            removed + reversed@.len() + snapshots@.len() == all.len(),
        decreases snapshots.len(),
    {
        let ghost before = snapshots@;
        let ghost done = reversed@;
        let snapshot = snapshots.pop().unwrap();
        proof {
            assert(snapshots@ =~= before.drop_last());
            assert(snapshots@ =~= all.take(snapshots@.len() as int));
        }
        if is_outdated(snapshot.collected_at, now, days_to_keep) {
            removed += 1;
        } else {
            reversed.push(snapshot);
            proof {
                assert(reversed@.reverse() =~= seq![snapshot] + done.reverse());
                assert(retained(before, cutoff) == retained(snapshots@, cutoff).push(snapshot));
                assert(retained(snapshots@, cutoff).push(snapshot) + done.reverse() =~= retained(
                    snapshots@,
                    cutoff,
                ) + reversed@.reverse());
            }
        }
    }
    proof {
        assert(retained(snapshots@, cutoff) =~= Seq::<SystemSnapshot>::empty());
        assert(retained(all, cutoff) =~= reversed@.reverse());
    }
    let ghost turned = reversed@;
    while reversed.len() > 0
        invariant
            reversed@.len() <= turned.len(),
            reversed@ == turned.take(reversed@.len() as int),
            snapshots@ == turned.skip(reversed@.len() as int).reverse(),
        decreases reversed.len(),
    {
        let ghost before = reversed@;
        let snapshot = reversed.pop().unwrap();
        snapshots.push(snapshot);
        proof {
            assert(reversed@ =~= before.drop_last());
            assert(reversed@ =~= turned.take(reversed@.len() as int));
            assert(snapshots@ =~= turned.skip(reversed@.len() as int).reverse());
        }
    }
    proof {
        assert(turned.skip(0) =~= turned);
        assert(snapshots@ =~= turned.reverse());
    }
    removed
}

/// How many results there are of the last day, in all and by status.
#[derive(Debug)]
pub struct ResultStats {
    pub total: i64,
    pub passed: i64,
    pub failed: i64,
    pub errors: i64,
}

/// The result was collected within the day that ends at `now`.
pub open spec fn of_last_day(result: CheckResult, now: i64) -> bool {
    result.collected_at > now - MILLIS_PER_DAY
}

/// How many results of the last day there are.
pub open spec fn count_recent(results: Seq<CheckResult>, now: i64) -> nat
    decreases results.len(),
{
    if results.len() == 0 {
        0
    } else {
        count_recent(results.drop_last(), now) + if of_last_day(results.last(), now) {
            1nat
        } else {
            0nat
        }
    }
}

/// How many results of the last day have the status.
pub open spec fn count_recent_with(results: Seq<CheckResult>, now: i64, status: CheckStatus) -> nat
    decreases results.len(),
{
    if results.len() == 0 {
        0
    } else {
        count_recent_with(results.drop_last(), now, status) + if of_last_day(results.last(), now)
            && results.last().status == status {
            1nat
        } else {
            0nat
        }
    }
}

/// The statistics of the day that ends at `now`.
pub fn get_result_stats(results: &Vec<CheckResult>, now: i64) -> (r: ResultStats)
    requires
        results@.len() <= i64::MAX,
    ensures
        r.total == count_recent(results@, now),
        r.passed == count_recent_with(results@, now, CheckStatus::Pass),
        r.failed == count_recent_with(results@, now, CheckStatus::Fail),
        r.errors == count_recent_with(results@, now, CheckStatus::Error),
{
    let mut total: i64 = 0;
    let mut passed: i64 = 0;
    let mut failed: i64 = 0;
    let mut errors: i64 = 0;
    let mut i: usize = 0;
    let n = results.len();
    assert(results@.take(0) =~= Seq::<CheckResult>::empty());
    while i < n
        invariant
            i <= n,
            n == results@.len(),
            n <= i64::MAX,
            total == count_recent(results@.take(i as int), now),
            passed == count_recent_with(results@.take(i as int), now, CheckStatus::Pass),
            failed == count_recent_with(results@.take(i as int), now, CheckStatus::Fail),
            errors == count_recent_with(results@.take(i as int), now, CheckStatus::Error),
            total <= i,
            passed <= i,
            failed <= i,
            errors <= i,
        decreases n - i,
    {
        proof {
            assert(results@.take(i + 1).drop_last() =~= results@.take(i as int));
            assert(results@.take(i + 1).last() == results@[i as int]);
        }
        if (results[i].collected_at as i128) > (now as i128) - 86400000 {
            total += 1;
            match results[i].status {
                CheckStatus::Pass => { passed += 1; },
                CheckStatus::Fail => { failed += 1; },
                CheckStatus::Error => { errors += 1; },
                CheckStatus::Skipped => {},
            }
        }
        i += 1;
    }
    proof {
        assert(results@.take(n as int) =~= results@);
    }
    ResultStats { total, passed, failed, errors }
}

/// The result at place `i` is one of the endpoint's.
pub open spec fn concerns(results: Seq<CheckResult>, endpoint_id: u128, i: int) -> bool {
    0 <= i < results.len() && results[i].endpoint_id == endpoint_id
}

/// The result at place `i` is the latest of its check for the endpoint: no
/// result of the endpoint for the same check was collected later.
pub open spec fn is_latest(results: Seq<CheckResult>, endpoint_id: u128, i: int) -> bool {
    &&& concerns(results, endpoint_id, i)
    &&& forall|j: int| #[trigger]
        concerns(results, endpoint_id, j) && results[j].check_id == results[i].check_id
            ==> results[j].collected_at <= results[i].collected_at
}

/// The places hold the latest result of each check for the endpoint: one
/// place for each check that the endpoint has a result of, in ascending
/// order of the checks' identifiers.
pub open spec fn latest_of(results: Seq<CheckResult>, endpoint_id: u128, places: Seq<usize>) -> bool {
    &&& forall|k: int| 0 <= k < places.len() ==> is_latest(results, endpoint_id, #[trigger] places[k] as int)
    &&& forall|k: int, m: int|
        0 <= k < m < places.len() ==> results[#[trigger] places[k] as int].check_id
            < results[#[trigger] places[m] as int].check_id
    &&& forall|j: int| #[trigger]
        concerns(results, endpoint_id, j) ==> exists|k: int|
            0 <= k < places.len() && results[#[trigger] places[k] as int].check_id
                == results[j].check_id
}

/// A result that is not the endpoint's leaves the latest results as they
/// are.
proof fn latest_unchanged(results: Seq<CheckResult>, endpoint_id: u128, j: int, places: Seq<usize>)
    requires
        0 <= j < results.len(),
        results[j].endpoint_id != endpoint_id,
        latest_of(results.take(j), endpoint_id, places),
    ensures
        latest_of(results.take(j + 1), endpoint_id, places),
{
    let seen = results.take(j);
    let next = results.take(j + 1);
    assert forall|i: int| #[trigger] concerns(next, endpoint_id, i) implies concerns(
        seen,
        endpoint_id,
        i,
    ) && seen[i] == next[i] by {}
    assert forall|k: int| 0 <= k < places.len() implies is_latest(
        next,
        endpoint_id,
        #[trigger] places[k] as int,
    ) by {
        let place = places[k] as int;
        assert(is_latest(seen, endpoint_id, place));
        assert forall|i: int| #[trigger]
            concerns(next, endpoint_id, i) && next[i].check_id == next[place].check_id implies next[i].collected_at
            <= next[place].collected_at by {
            assert(concerns(seen, endpoint_id, i));
        }
    }
    assert forall|k: int, m: int| 0 <= k < m < places.len() implies next[
    #[trigger] places[k] as int].check_id < next[#[trigger] places[m] as int].check_id by {
        assert(is_latest(seen, endpoint_id, places[k] as int));
        assert(is_latest(seen, endpoint_id, places[m] as int));
        assert(seen[places[k] as int].check_id < seen[places[m] as int].check_id);
    }
    assert forall|i: int| #[trigger] concerns(next, endpoint_id, i) implies exists|k: int|
        0 <= k < places.len() && next[#[trigger] places[k] as int].check_id
            == next[i].check_id by {
        assert(concerns(seen, endpoint_id, i));
        let k = choose|k: int|
            0 <= k < places.len() && seen[#[trigger] places[k] as int].check_id
                == seen[i].check_id;
        assert(is_latest(seen, endpoint_id, places[k] as int));
        assert(next[places[k] as int].check_id == next[i].check_id);
    }
}

/// What is known where a further result of a check takes, or does not take,
/// the place of the one before.
spec fn further_of_check(
    results: Seq<CheckResult>,
    endpoint_id: u128,
    j: int,
    before: Seq<usize>,
    p: int,
    after: Seq<usize>,
) -> bool {
    &&& 0 <= j < results.len()
    &&& j <= usize::MAX
    &&& results[j].endpoint_id == endpoint_id
    &&& latest_of(results.take(j), endpoint_id, before)
    &&& 0 <= p < before.len()
    &&& results[before[p] as int].check_id == results[j].check_id
    &&& after.len() == before.len()
    &&& forall|k: int| 0 <= k < before.len() && k != p ==> #[trigger] after[k] == before[k]
    &&& after[p] == if results[j].collected_at > results[before[p] as int].collected_at {
        j as usize
    } else {
        before[p]
    }
}

proof fn replaced_each_latest(
    results: Seq<CheckResult>,
    endpoint_id: u128,
    j: int,
    before: Seq<usize>,
    p: int,
    after: Seq<usize>,
    k: int,
)
    requires
        further_of_check(results, endpoint_id, j, before, p, after),
        0 <= k < after.len(),
    ensures
        is_latest(results.take(j + 1), endpoint_id, after[k] as int),
{
    let seen = results.take(j);
    let next = results.take(j + 1);
    let place = after[k] as int;
    let old_place = before[k] as int;
    assert(is_latest(seen, endpoint_id, old_place));
    assert(is_latest(seen, endpoint_id, before[p] as int));
    if k != p {
        if k < p {
            assert(seen[before[k] as int].check_id < seen[before[p] as int].check_id);
        } else {
            assert(seen[before[p] as int].check_id < seen[before[k] as int].check_id);
        }
    }
    assert forall|i: int| #[trigger]
        concerns(next, endpoint_id, i) && next[i].check_id == next[place].check_id implies next[i].collected_at
        <= next[place].collected_at by {
        if i < j {
            assert(concerns(seen, endpoint_id, i));
            assert(seen[i].check_id == seen[old_place].check_id);
        }
    }
}

proof fn replaced_ascending(
    results: Seq<CheckResult>,
    endpoint_id: u128,
    j: int,
    before: Seq<usize>,
    p: int,
    after: Seq<usize>,
    k: int,
    m: int,
)
    requires
        further_of_check(results, endpoint_id, j, before, p, after),
        0 <= k < m < after.len(),
    ensures
        results.take(j + 1)[after[k] as int].check_id < results.take(j + 1)[after[m] as int].check_id,
{
    let seen = results.take(j);
    assert(is_latest(seen, endpoint_id, before[k] as int));
    assert(is_latest(seen, endpoint_id, before[m] as int));
    assert(seen[before[k] as int].check_id < seen[before[m] as int].check_id);
}

proof fn replaced_covers(
    results: Seq<CheckResult>,
    endpoint_id: u128,
    j: int,
    before: Seq<usize>,
    p: int,
    after: Seq<usize>,
    i: int,
) -> (k: int)
    requires
        further_of_check(results, endpoint_id, j, before, p, after),
        concerns(results.take(j + 1), endpoint_id, i),
    ensures
        0 <= k < after.len(),
        results.take(j + 1)[after[k] as int].check_id == results.take(j + 1)[i].check_id,
{
    let seen = results.take(j);
    assert(is_latest(seen, endpoint_id, before[p] as int));
    if i < j {
        assert(concerns(seen, endpoint_id, i));
        let k = choose|k: int|
            0 <= k < before.len() && seen[#[trigger] before[k] as int].check_id
                == seen[i].check_id;
        assert(is_latest(seen, endpoint_id, before[k] as int));
        k
    } else {
        p
    }
}

/// A further result of a check that has a place: the place holds the later
/// of the two.
proof fn latest_replaced(
    results: Seq<CheckResult>,
    endpoint_id: u128,
    j: int,
    before: Seq<usize>,
    p: int,
    after: Seq<usize>,
)
    requires
        further_of_check(results, endpoint_id, j, before, p, after),
    ensures
        latest_of(results.take(j + 1), endpoint_id, after),
{
    let next = results.take(j + 1);
    assert forall|k: int| 0 <= k < after.len() implies is_latest(
        next,
        endpoint_id,
        #[trigger] after[k] as int,
    ) by {
        replaced_each_latest(results, endpoint_id, j, before, p, after, k);
    }
    assert forall|k: int, m: int| 0 <= k < m < after.len() implies next[
    #[trigger] after[k] as int].check_id < next[#[trigger] after[m] as int].check_id by {
        replaced_ascending(results, endpoint_id, j, before, p, after, k, m);
    }
    assert forall|i: int| #[trigger] concerns(next, endpoint_id, i) implies exists|k: int|
        0 <= k < after.len() && next[#[trigger] after[k] as int].check_id == next[i].check_id by {
        let k = replaced_covers(results, endpoint_id, j, before, p, after, i);
        assert(next[after[k] as int].check_id == next[i].check_id);
    }
}

/// `after` is `before` with `j` put in at place `p`.
spec fn put_in(before: Seq<usize>, p: int, j: int, after: Seq<usize>) -> bool {
    &&& 0 <= p <= before.len()
    &&& after.len() == before.len() + 1
    &&& after[p] == j
    &&& forall|k: int| 0 <= k < p ==> #[trigger] after[k] == before[k]
    &&& forall|k: int| p < k < after.len() ==> #[trigger] after[k] == before[k - 1]
}

/// What is known where a first result of a check is given its place.
spec fn first_of_check(
    results: Seq<CheckResult>,
    endpoint_id: u128,
    j: int,
    before: Seq<usize>,
    p: int,
) -> bool {
    &&& 0 <= j < results.len()
    &&& j <= usize::MAX
    &&& results[j].endpoint_id == endpoint_id
    &&& latest_of(results.take(j), endpoint_id, before)
    &&& 0 <= p <= before.len()
    &&& forall|k: int|
        0 <= k < p ==> results[#[trigger] before[k] as int].check_id < results[j].check_id
    &&& forall|k: int|
        p <= k < before.len() ==> results[j].check_id < results[#[trigger] before[k] as int].check_id
}

proof fn inserted_each_latest(
    results: Seq<CheckResult>,
    endpoint_id: u128,
    j: int,
    before: Seq<usize>,
    p: int,
    after: Seq<usize>,
    k: int,
)
    requires
        first_of_check(results, endpoint_id, j, before, p),
        put_in(before, p, j, after),
        0 <= k < after.len(),
    ensures
        is_latest(results.take(j + 1), endpoint_id, after[k] as int),
{
    let seen = results.take(j);
    let next = results.take(j + 1);
    let place = after[k] as int;
    if k == p {
        assert forall|i: int| #[trigger]
            concerns(next, endpoint_id, i) && next[i].check_id == next[place].check_id implies next[i].collected_at
            <= next[place].collected_at by {
            if i < j {
                assert(concerns(seen, endpoint_id, i));
                let m = choose|m: int|
                    0 <= m < before.len() && seen[#[trigger] before[m] as int].check_id
                        == seen[i].check_id;
                assert(is_latest(seen, endpoint_id, before[m] as int));
                assert(results[before[m] as int].check_id != results[j].check_id);
            }
        }
    } else {
        let k0 = if k < p {
            k
        } else {
            k - 1
        };
        assert(after[k] == before[k0]);
        assert(is_latest(seen, endpoint_id, before[k0] as int));
        assert(results[before[k0] as int].check_id != results[j].check_id);
        assert forall|i: int| #[trigger]
            concerns(next, endpoint_id, i) && next[i].check_id == next[place].check_id implies next[i].collected_at
            <= next[place].collected_at by {
            if i < j {
                assert(concerns(seen, endpoint_id, i));
            }
        }
    }
}

proof fn inserted_ascending(
    results: Seq<CheckResult>,
    endpoint_id: u128,
    j: int,
    before: Seq<usize>,
    p: int,
    after: Seq<usize>,
    k: int,
    m: int,
)
    requires
        first_of_check(results, endpoint_id, j, before, p),
        put_in(before, p, j, after),
        0 <= k < m < after.len(),
    ensures
        results.take(j + 1)[after[k] as int].check_id < results.take(j + 1)[after[m] as int].check_id,
{
    let seen = results.take(j);
    let k0 = if k < p {
        k
    } else {
        k - 1
    };
    let m0 = if m < p {
        m
    } else {
        m - 1
    };
    if k == p {
        assert(after[m] == before[m0]);
        assert(is_latest(seen, endpoint_id, before[m0] as int));
    } else if m == p {
        assert(after[k] == before[k0]);
        assert(is_latest(seen, endpoint_id, before[k0] as int));
    } else {
        assert(after[k] == before[k0]);
        assert(after[m] == before[m0]);
        assert(is_latest(seen, endpoint_id, before[k0] as int));
        assert(is_latest(seen, endpoint_id, before[m0] as int));
        assert(seen[before[k0] as int].check_id < seen[before[m0] as int].check_id);
    }
}

proof fn inserted_covers(
    results: Seq<CheckResult>,
    endpoint_id: u128,
    j: int,
    before: Seq<usize>,
    p: int,
    after: Seq<usize>,
    i: int,
) -> (k: int)
    requires
        first_of_check(results, endpoint_id, j, before, p),
        put_in(before, p, j, after),
        concerns(results.take(j + 1), endpoint_id, i),
    ensures
        0 <= k < after.len(),
        results.take(j + 1)[after[k] as int].check_id == results.take(j + 1)[i].check_id,
{
    let seen = results.take(j);
    if i < j {
        assert(concerns(seen, endpoint_id, i));
        let k = choose|k: int|
            0 <= k < before.len() && seen[#[trigger] before[k] as int].check_id
                == seen[i].check_id;
        assert(is_latest(seen, endpoint_id, before[k] as int));
        let k1 = if k < p {
            k
        } else {
            k + 1
        };
        assert(after[k1] == before[k]);
        k1
    } else {
        p
    }
}

/// The first result of a check: it gets a place of its own, where the order
/// of the checks puts it.
proof fn latest_inserted(
    results: Seq<CheckResult>,
    endpoint_id: u128,
    j: int,
    before: Seq<usize>,
    p: int,
    after: Seq<usize>,
)
    requires
        first_of_check(results, endpoint_id, j, before, p),
        put_in(before, p, j, after),
    ensures
        latest_of(results.take(j + 1), endpoint_id, after),
{
    let next = results.take(j + 1);
    assert forall|k: int| 0 <= k < after.len() implies is_latest(
        next,
        endpoint_id,
        #[trigger] after[k] as int,
    ) by {
        inserted_each_latest(results, endpoint_id, j, before, p, after, k);
    }
    assert forall|k: int, m: int| 0 <= k < m < after.len() implies next[
    #[trigger] after[k] as int].check_id < next[#[trigger] after[m] as int].check_id by {
        inserted_ascending(results, endpoint_id, j, before, p, after, k, m);
    }
    assert forall|i: int| #[trigger] concerns(next, endpoint_id, i) implies exists|k: int|
        0 <= k < after.len() && next[#[trigger] after[k] as int].check_id == next[i].check_id by {
        let k = inserted_covers(results, endpoint_id, j, before, p, after, i);
        assert(next[after[k] as int].check_id == next[i].check_id);
    }
}

/// The places hold the latest results among the first `j` of the log.
#[verifier::opaque]
spec fn held(results: Seq<CheckResult>, endpoint_id: u128, j: int, places: Seq<usize>) -> bool {
    latest_of(results.take(j), endpoint_id, places)
}

proof fn held_at_start(results: Seq<CheckResult>, endpoint_id: u128)
    ensures
        held(results, endpoint_id, 0, Seq::<usize>::empty()),
{
    reveal(held);
}

proof fn held_at_end(results: Seq<CheckResult>, endpoint_id: u128, places: Seq<usize>)
    requires
        held(results, endpoint_id, results.len() as int, places),
    ensures
        latest_of(results, endpoint_id, places),
{
    reveal(held);
    assert(results.take(results.len() as int) =~= results);
}

proof fn held_places(results: Seq<CheckResult>, endpoint_id: u128, j: int, places: Seq<usize>)
    requires
        0 <= j <= results.len(),
        held(results, endpoint_id, j, places),
    ensures
        forall|k: int| 0 <= k < places.len() ==> (#[trigger] places[k]) < j,
        forall|k: int, m: int|
            0 <= k < m < places.len() ==> results[#[trigger] places[k] as int].check_id
                < results[#[trigger] places[m] as int].check_id,
{
    reveal(held);
    let seen = results.take(j);
    assert forall|k: int| 0 <= k < places.len() implies (#[trigger] places[k]) < j by {
        assert(is_latest(seen, endpoint_id, places[k] as int));
    }
    assert forall|k: int, m: int| 0 <= k < m < places.len() implies results[
    #[trigger] places[k] as int].check_id < results[#[trigger] places[m] as int].check_id by {
        assert(is_latest(seen, endpoint_id, places[k] as int));
        assert(is_latest(seen, endpoint_id, places[m] as int));
        assert(seen[places[k] as int].check_id < seen[places[m] as int].check_id);
    }
}

proof fn held_unchanged(results: Seq<CheckResult>, endpoint_id: u128, j: int, places: Seq<usize>)
    requires
        0 <= j < results.len(),
        results[j].endpoint_id != endpoint_id,
        held(results, endpoint_id, j, places),
    ensures
        held(results, endpoint_id, j + 1, places),
{
    reveal(held);
    latest_unchanged(results, endpoint_id, j, places);
}

proof fn held_replaced(
    results: Seq<CheckResult>,
    endpoint_id: u128,
    j: int,
    before: Seq<usize>,
    p: int,
    after: Seq<usize>,
)
    requires
        0 <= j < results.len(),
        j <= usize::MAX,
        results[j].endpoint_id == endpoint_id,
        held(results, endpoint_id, j, before),
        0 <= p < before.len(),
        results[before[p] as int].check_id == results[j].check_id,
        after == if results[j].collected_at > results[before[p] as int].collected_at {
            before.update(p, j as usize)
        } else {
            before
        },
    ensures
        held(results, endpoint_id, j + 1, after),
{
    reveal(held);
    assert(further_of_check(results, endpoint_id, j, before, p, after));
    latest_replaced(results, endpoint_id, j, before, p, after);
}

proof fn held_inserted(
    results: Seq<CheckResult>,
    endpoint_id: u128,
    j: int,
    before: Seq<usize>,
    p: int,
    after: Seq<usize>,
)
    requires
        0 <= j < results.len(),
        j <= usize::MAX,
        results[j].endpoint_id == endpoint_id,
        held(results, endpoint_id, j, before),
        put_in(before, p, j, after),
        forall|k: int|
            0 <= k < p ==> results[#[trigger] before[k] as int].check_id < results[j].check_id,
        forall|k: int|
            p <= k < before.len() ==> results[j].check_id < results[#[trigger] before[k] as int].check_id,
    ensures
        held(results, endpoint_id, j + 1, after),
{
    reveal(held);
    latest_inserted(results, endpoint_id, j, before, p, after);
}

proof fn held_after(
    results: Seq<CheckResult>,
    endpoint_id: u128,
    j: int,
    before: Seq<usize>,
    p: int,
    after: Seq<usize>,
)
    requires
        0 <= j < results.len(),
        j <= usize::MAX,
        held(results, endpoint_id, j, before),
        if results[j].endpoint_id != endpoint_id {
            after == before
        } else if 0 <= p < before.len() && results[before[p] as int].check_id
            == results[j].check_id {
            after == if results[j].collected_at > results[before[p] as int].collected_at {
                before.update(p, j as usize)
            } else {
                before
            }
        } else {
            &&& 0 <= p <= before.len()
            &&& after == before.insert(p, j as usize)
            &&& forall|k: int|
                0 <= k < p ==> results[#[trigger] before[k] as int].check_id
                    < results[j].check_id
            &&& p < before.len() ==> results[j].check_id < results[before[p] as int].check_id
        },
    ensures
        held(results, endpoint_id, j + 1, after),
{
    if results[j].endpoint_id != endpoint_id {
        held_unchanged(results, endpoint_id, j, before);
    } else if 0 <= p < before.len() && results[before[p] as int].check_id == results[j].check_id {
        held_replaced(results, endpoint_id, j, before, p, after);
    } else {
        held_places(results, endpoint_id, j, before);
        assert(put_in(before, p, j, after));
        assert forall|k: int| p <= k < before.len() implies results[j].check_id < results[
        #[trigger] before[k] as int].check_id by {
            if p < k {
                assert(results[before[p] as int].check_id < results[before[k] as int].check_id);
            }
        }
        held_inserted(results, endpoint_id, j, before, p, after);
    }
}

/// The latest result of each check for the endpoint, by its place in the
/// log. Where two results of a check were collected at the same time, either
/// may stand for the check.
pub fn get_latest_results_for_endpoint(results: &Vec<CheckResult>, endpoint_id: u128) -> (r: Vec<
    usize,
>)
    ensures
        latest_of(results@, endpoint_id, r@),
{
    let mut places: Vec<usize> = Vec::new();
    let mut j: usize = 0;
    proof {
        held_at_start(results@, endpoint_id);
    }
    while j < results.len()
        invariant
            j <= results.len(),
            held(results@, endpoint_id, j as int, places@),
        decreases results.len() - j,
    {
        let ghost before = places@;
        let mut p: usize = 0;
        if results[j].endpoint_id == endpoint_id {
            let check_id = results[j].check_id;
            proof {
                held_places(results@, endpoint_id, j as int, before);
            }
            // The first place whose check is not below this one.
            while p < places.len() && results[places[p]].check_id < check_id
                invariant
                    p <= places.len(),
                    j < results.len(),
                    places@ == before,
                    forall|k: int| 0 <= k < before.len() ==> (#[trigger] before[k]) < j,
                    forall|k: int|
                        0 <= k < p ==> results@[#[trigger] places@[k] as int].check_id < check_id,
                decreases places.len() - p,
            {
                p += 1;
            }
            if p < places.len() && results[places[p]].check_id == check_id {
                if results[j].collected_at > results[places[p]].collected_at {
                    places.set(p, j);
                }
            } else {
                places.insert(p, j);
            }
        }
        proof {
            held_after(results@, endpoint_id, j as int, before, p as int, places@);
        }
        j += 1;
    }
    proof {
        held_at_end(results@, endpoint_id, places@);
    }
    places
}

} // verus!
