//! The endpoints that a server knows, and the rules by which their records
//! change: registration by hostname, heartbeats, and the sweep that marks
//! silent endpoints offline.
//!
//! A `Fleet` keeps one record per hostname and one per identifier. Its
//! contracts speak of the records as a sequence of `EndpointState`s.

use crate::models::{Endpoint, EndpointStatus};
use crate::text::{copy_optional, copy_texts, text_of, texts_of};
use vstd::prelude::*;

verus! {

/// An endpoint record as contracts speak of it.
pub struct EndpointState {
    pub id: u128,
    pub hostname: Seq<char>,
    pub os: Option<Seq<char>>,
    pub os_version: Option<Seq<char>>,
    pub agent_version: Option<Seq<char>>,
    pub ip_addresses: Seq<Seq<char>>,
    pub last_seen: Option<i64>,
    pub status: EndpointStatus,
    pub created_at: i64,
}

impl View for Endpoint {
    type V = EndpointState;

    open spec fn view(&self) -> EndpointState {
        EndpointState {
            id: self.id,
            hostname: self.hostname@,
            os: text_of(self.os),
            os_version: text_of(self.os_version),
            agent_version: text_of(self.agent_version),
            ip_addresses: texts_of(self.ip_addresses@),
            last_seen: self.last_seen,
            status: self.status,
            created_at: self.created_at,
        }
    }
}

/// Milliseconds in a minute.
pub const MILLIS_PER_MINUTE: i64 = 60000;

/// No two records share a hostname, and no two share an identifier.
pub open spec fn distinct(fleet: Seq<EndpointState>) -> bool {
    forall|i: int, j: int|
        0 <= i < j < fleet.len() ==> (#[trigger] fleet[i]).hostname != (#[trigger] fleet[j]).hostname
            && fleet[i].id != fleet[j].id
}

/// Some record holds the hostname.
pub open spec fn knows_hostname(fleet: Seq<EndpointState>, hostname: Seq<char>) -> bool {
    exists|i: int| 0 <= i < fleet.len() && (#[trigger] fleet[i]).hostname == hostname
}

/// The place of a record that holds the hostname.
pub open spec fn hostname_index(fleet: Seq<EndpointState>, hostname: Seq<char>) -> int {
    choose|i: int| 0 <= i < fleet.len() && (#[trigger] fleet[i]).hostname == hostname
}

/// Some record holds the identifier.
pub open spec fn knows_id(fleet: Seq<EndpointState>, id: u128) -> bool {
    exists|i: int| 0 <= i < fleet.len() && (#[trigger] fleet[i]).id == id
}

/// The place of a record that holds the identifier.
pub open spec fn id_index(fleet: Seq<EndpointState>, id: u128) -> int {
    choose|i: int| 0 <= i < fleet.len() && (#[trigger] fleet[i]).id == id
}

/// What an agent says of itself when it registers.
pub struct Identity {
    pub os: Seq<char>,
    pub os_version: Seq<char>,
    pub agent_version: Seq<char>,
    pub ip_addresses: Seq<Seq<char>>,
}

/// A record after a registration that found it: what the agent says of
/// itself is taken over, the endpoint counts as seen and online, and its
/// identifier, hostname and date of creation stay.
pub open spec fn refreshed(e: EndpointState, who: Identity, now: i64) -> EndpointState {
    EndpointState {
        os: Some(who.os),
        os_version: Some(who.os_version),
        agent_version: Some(who.agent_version),
        ip_addresses: who.ip_addresses,
        last_seen: Some(now),
        status: EndpointStatus::Online,
        ..e
    }
}

/// The record that a first registration creates.
pub open spec fn created(id: u128, hostname: Seq<char>, who: Identity, now: i64) -> EndpointState {
    EndpointState {
        id,
        hostname,
        os: Some(who.os),
        os_version: Some(who.os_version),
        agent_version: Some(who.agent_version),
        ip_addresses: who.ip_addresses,
        last_seen: Some(now),
        status: EndpointStatus::Online,
        created_at: now,
    }
}

/// The identifier that a registration of `hostname` answers with: that of
/// the record that holds the hostname, or else the fresh one, `id`. There is
/// none where the hostname is new and `id` is taken already.
pub open spec fn registered_id(fleet: Seq<EndpointState>, id: u128, hostname: Seq<char>) -> Option<
    u128,
> {
    if knows_hostname(fleet, hostname) {
        Some(fleet[hostname_index(fleet, hostname)].id)
    } else if knows_id(fleet, id) {
        None
    } else {
        Some(id)
    }
}

/// The records after a registration of `hostname`.
pub open spec fn registered(
    fleet: Seq<EndpointState>,
    id: u128,
    hostname: Seq<char>,
    who: Identity,
    now: i64,
) -> Seq<EndpointState> {
    if knows_hostname(fleet, hostname) {
        let i = hostname_index(fleet, hostname);
        fleet.update(i, refreshed(fleet[i], who, now))
    } else if knows_id(fleet, id) {
        fleet
    } else {
        fleet.push(created(id, hostname, who, now))
    }
}

/// The records after the endpoint `id` was seen at `now` and given `status`.
/// An identifier that no record holds changes nothing.
pub open spec fn seen(fleet: Seq<EndpointState>, id: u128, status: EndpointStatus, now: i64) -> Seq<
    EndpointState,
> {
    if knows_id(fleet, id) {
        let i = id_index(fleet, id);
        fleet.update(i, EndpointState { last_seen: Some(now), status, ..fleet[i] })
    } else {
        fleet
    }
}

/// An endpoint is silent when it was last seen more than the threshold
/// before `now`. One that was never seen is not silent.
pub open spec fn silent(e: EndpointState, now: i64, threshold_minutes: i64) -> bool {
    match e.last_seen {
        Some(t) => t < now - threshold_minutes * MILLIS_PER_MINUTE,
        None => false,
    }
}

/// The sweep turns an endpoint offline when it is silent and not offline
/// already.
pub open spec fn sweep_turns(e: EndpointState, now: i64, threshold_minutes: i64) -> bool {
    silent(e, now, threshold_minutes) && e.status != EndpointStatus::Offline
}

/// A record after a sweep.
pub open spec fn swept_one(e: EndpointState, now: i64, threshold_minutes: i64) -> EndpointState {
    if sweep_turns(e, now, threshold_minutes) {
        EndpointState { status: EndpointStatus::Offline, ..e }
    } else {
        e
    }
}

/// The records after a sweep.
pub open spec fn swept(fleet: Seq<EndpointState>, now: i64, threshold_minutes: i64) -> Seq<
    EndpointState,
> {
    Seq::new(fleet.len(), |i: int| swept_one(fleet[i], now, threshold_minutes))
}

/// How many records a sweep turns offline.
pub open spec fn sweep_count(fleet: Seq<EndpointState>, now: i64, threshold_minutes: i64) -> nat
    decreases fleet.len(),
{
    if fleet.len() == 0 {
        0
    } else {
        sweep_count(fleet.drop_last(), now, threshold_minutes) + if sweep_turns(
            fleet.last(),
            now,
            threshold_minutes,
        ) {
            1nat
        } else {
            0nat
        }
    }
}

/// How many records have the status.
pub open spec fn count_status(fleet: Seq<EndpointState>, status: EndpointStatus) -> nat
    decreases fleet.len(),
{
    if fleet.len() == 0 {
        0
    } else {
        count_status(fleet.drop_last(), status) + if fleet.last().status == status {
            1nat
        } else {
            0nat
        }
    }
}

/// How many endpoints there are, in all and by status.
#[derive(Debug)]
pub struct EndpointCounts {
    pub total: i64,
    pub online: i64,
    pub offline: i64,
    pub warning: i64,
    pub critical: i64,
}

/// Why a record could not be stored.
#[derive(Debug, Clone, Copy, PartialEq, Eq, Structural)]
pub enum StoreError {
    /// Another record holds the identifier.
    IdTaken,
}

/// Whether the endpoint is silent at `now`.
pub fn is_silent(e: &Endpoint, now: i64, threshold_minutes: i64) -> (r: bool)
    ensures
        r == silent(e@, now, threshold_minutes),
{
    match e.last_seen {
        Some(t) => (t as i128) < (now as i128) - (threshold_minutes as i128) * 60000,
        None => false,
    }
}

/// The endpoints that a server knows.
#[derive(Debug)]
pub struct Fleet {
    endpoints: Vec<Endpoint>,
}

impl View for Fleet {
    type V = Seq<EndpointState>;

    closed spec fn view(&self) -> Seq<EndpointState> {
        self.endpoints@.map_values(|e: Endpoint| e@)
    }
}

impl Fleet {
    /// The records are distinct by hostname and by identifier.
    pub open spec fn wf(&self) -> bool {
        distinct(self@)
    }

    /// A fleet without endpoints.
    pub fn new() -> (r: Fleet)
        ensures
            r@.len() == 0,
            r.wf(),
    {
        Fleet { endpoints: Vec::new() }
    }

    /// The number of endpoints.
    pub fn len(&self) -> (r: usize)
        ensures
            r == self@.len(),
    {
        self.endpoints.len()
    }

    /// The record at place `i`.
    pub fn get(&self, i: usize) -> (r: Option<&Endpoint>)
        ensures
            match r {
                Some(e) => i < self@.len() && e@ == self@[i as int],
                None => i >= self@.len(),
            },
    {
        if i < self.endpoints.len() {
            Some(&self.endpoints[i])
        } else {
            None
        }
    }

    fn position_of_hostname(&self, hostname: &str) -> (r: Option<usize>)
        ensures
            match r {
                Some(i) => i < self@.len() && self@[i as int].hostname == hostname@,
                None => !knows_hostname(self@, hostname@),
            },
    {
        let mut i: usize = 0;
        while i < self.endpoints.len()
            invariant
                i <= self.endpoints.len(),
                forall|j: int| 0 <= j < i ==> (#[trigger] self@[j]).hostname != hostname@,
            decreases self.endpoints.len() - i,
        {
            if self.endpoints[i].hostname.as_str().eq(hostname) {
                return Some(i);
            }
            i += 1;
        }
        None
    }

    fn position_of_id(&self, id: u128) -> (r: Option<usize>)
        ensures
            match r {
                Some(i) => i < self@.len() && self@[i as int].id == id,
                None => !knows_id(self@, id),
            },
    {
        let mut i: usize = 0;
        while i < self.endpoints.len()
            invariant
                i <= self.endpoints.len(),
                forall|j: int| 0 <= j < i ==> (#[trigger] self@[j]).id != id,
            decreases self.endpoints.len() - i,
        {
            if self.endpoints[i].id == id {
                return Some(i);
            }
            i += 1;
        }
        None
    }

    /// The record of the endpoint `id`, if there is one.
    pub fn get_endpoint_by_id(&self, id: u128) -> (r: Option<&Endpoint>)
        requires
            self.wf(),
        ensures
            match r {
                Some(e) => knows_id(self@, id) && e@ == self@[id_index(self@, id)],
                None => !knows_id(self@, id),
            },
    {
        match self.position_of_id(id) {
            Some(i) => Some(&self.endpoints[i]),
            None => None,
        }
    }

    /// The record of the endpoint called `hostname`, if there is one.
    pub fn get_endpoint_by_hostname(&self, hostname: &str) -> (r: Option<&Endpoint>)
        requires
            self.wf(),
        ensures
            match r {
                Some(e) => knows_hostname(self@, hostname@) && e@ == self@[hostname_index(
                    self@,
                    hostname@,
                )],
                None => !knows_hostname(self@, hostname@),
            },
    {
        match self.position_of_hostname(hostname) {
            Some(i) => Some(&self.endpoints[i]),
            None => None,
        }
    }

    /// Takes in a record as it is, as when the fleet is read back from a
    /// store. A record whose hostname or identifier another record holds is
    /// not taken in.
    pub fn restore(&mut self, record: Endpoint) -> (r: bool)
        requires
            old(self).wf(),
        ensures
            final(self).wf(),
            r == (!knows_hostname(old(self)@, record.hostname@) && !knows_id(old(self)@, record.id)),
            r ==> final(self)@ == old(self)@.push(record@),
            !r ==> final(self)@ == old(self)@,
    {
        if self.position_of_hostname(record.hostname.as_str()).is_some() {
            return false;
        }
        if self.position_of_id(record.id).is_some() {
            return false;
        }
        self.endpoints.push(record);
        proof {
            assert(self@ =~= old(self)@.push(record@));
            assert(distinct(self@)) by {
                assert forall|a: int, b: int| 0 <= a < b < self@.len() implies (
                #[trigger] self@[a]).hostname != (#[trigger] self@[b]).hostname && self@[a].id
                    != self@[b].id by {
                    if b < old(self)@.len() {
                        assert(old(self)@[a].hostname != old(self)@[b].hostname);
                    } else {
                        assert(old(self)@[a].hostname != record.hostname@);
                        assert(old(self)@[a].id != record.id);
                    }
                }
            }
        }
        true
    }

    /// Registers an endpoint: the record that holds the hostname is refreshed,
    /// or, where there is none, a record is created under the fresh
    /// identifier `id`. The answer is the identifier of the endpoint's record.
    pub fn create_endpoint(
        &mut self,
        id: u128,
        hostname: &str,
        os: &str,
        os_version: &str,
        agent_version: &str,
        ip_addresses: &Vec<String>,
        now: i64,
    ) -> (r: Result<u128, StoreError>)
        requires
            old(self).wf(),
        ensures
            final(self).wf(),
            final(self)@ == registered(
                old(self)@,
                id,
                hostname@,
                Identity {
                    os: os@,
                    os_version: os_version@,
                    agent_version: agent_version@,
                    ip_addresses: texts_of(ip_addresses@),
                },
                now,
            ),
            match r {
                Ok(found) => registered_id(old(self)@, id, hostname@) == Some(found),
                Err(e) => e == StoreError::IdTaken && registered_id(old(self)@, id, hostname@)
                    is None,
            },
    {
        let ghost who = Identity {
            os: os@,
            os_version: os_version@,
            agent_version: agent_version@,
            ip_addresses: texts_of(ip_addresses@),
        };
        match self.position_of_hostname(hostname) {
            Some(i) => {
                let found = self.endpoints[i].id;
                let fresh = Endpoint {
                    id: found,
                    hostname: self.endpoints[i].hostname.clone(),
                    os: Some(os.to_string()),
                    os_version: Some(os_version.to_string()),
                    agent_version: Some(agent_version.to_string()),
                    ip_addresses: copy_texts(ip_addresses),
                    last_seen: Some(now),
                    status: EndpointStatus::Online,
                    created_at: self.endpoints[i].created_at,
                };
                proof {
                    assert(hostname_index(old(self)@, hostname@) == i) by {
                        let k = hostname_index(old(self)@, hostname@);
                        assert(old(self)@[i as int].hostname == hostname@);
                        if k < i {
                            assert(old(self)@[k].hostname != old(self)@[i as int].hostname);
                        } else if i < k {
                            assert(old(self)@[i as int].hostname != old(self)@[k].hostname);
                        }
                    }
                    assert(fresh@ == refreshed(old(self)@[i as int], who, now));
                }
                self.endpoints.set(i, fresh);
                proof {
                    assert(self@ =~= old(self)@.update(i as int, fresh@));
                    assert(distinct(self@)) by {
                        assert forall|a: int, b: int| 0 <= a < b < self@.len() implies (
                        #[trigger] self@[a]).hostname != (#[trigger] self@[b]).hostname
                            && self@[a].id != self@[b].id by {
                            assert(old(self)@[a].hostname != old(self)@[b].hostname);
                            assert(old(self)@[a].id != old(self)@[b].id);
                        }
                    }
                }
                Ok(found)
            },
            None => match self.position_of_id(id) {
                Some(_) => Err(StoreError::IdTaken),
                None => {
                    let fresh = Endpoint {
                        id,
                        hostname: hostname.to_string(),
                        os: Some(os.to_string()),
                        os_version: Some(os_version.to_string()),
                        agent_version: Some(agent_version.to_string()),
                        ip_addresses: copy_texts(ip_addresses),
                        last_seen: Some(now),
                        status: EndpointStatus::Online,
                        created_at: now,
                    };
                    proof {
                        assert(fresh@ == created(id, hostname@, who, now));
                    }
                    self.endpoints.push(fresh);
                    proof {
                        assert(self@ =~= old(self)@.push(fresh@));
                        assert(distinct(self@)) by {
                            assert forall|a: int, b: int| 0 <= a < b < self@.len() implies (
                            #[trigger] self@[a]).hostname != (#[trigger] self@[b]).hostname
                                && self@[a].id != self@[b].id by {
                                if b < old(self)@.len() {
                                    assert(old(self)@[a].hostname != old(self)@[b].hostname);
                                } else {
                                    assert(old(self)@[a].hostname != hostname@);
                                    assert(old(self)@[a].id != id);
                                }
                            }
                        }
                    }
                    Ok(id)
                },
            },
        }
    }

    /// Records that the endpoint `id` was seen at `now`, and gives it
    /// `status`. An identifier that no record holds changes nothing.
    pub fn update_endpoint_heartbeat(&mut self, id: u128, status: EndpointStatus, now: i64)
        requires
            old(self).wf(),
        ensures
            final(self).wf(),
            final(self)@ == seen(old(self)@, id, status, now),
    {
        match self.position_of_id(id) {
            Some(i) => {
                let fresh = Endpoint {
                    id: self.endpoints[i].id,
                    hostname: self.endpoints[i].hostname.clone(),
                    os: copy_optional(&self.endpoints[i].os),
                    os_version: copy_optional(&self.endpoints[i].os_version),
                    agent_version: copy_optional(&self.endpoints[i].agent_version),
                    ip_addresses: copy_texts(&self.endpoints[i].ip_addresses),
                    last_seen: Some(now),
                    status,
                    created_at: self.endpoints[i].created_at,
                };
                proof {
                    assert(id_index(old(self)@, id) == i) by {
                        let k = id_index(old(self)@, id);
                        assert(old(self)@[i as int].id == id);
                        if k < i {
                            assert(old(self)@[k].id != old(self)@[i as int].id);
                        } else if i < k {
                            assert(old(self)@[i as int].id != old(self)@[k].id);
                        }
                    }
                }
                self.endpoints.set(i, fresh);
                proof {
                    assert(self@ =~= seen(old(self)@, id, status, now));
                    assert(distinct(self@)) by {
                        assert forall|a: int, b: int| 0 <= a < b < self@.len() implies (
                        #[trigger] self@[a]).hostname != (#[trigger] self@[b]).hostname
                            && self@[a].id != self@[b].id by {
                            assert(old(self)@[a].hostname != old(self)@[b].hostname);
                            assert(old(self)@[a].id != old(self)@[b].id);
                        }
                    }
                }
            },
            None => {},
        }
    }

    /// The sweep: every endpoint that is silent at `now` and not offline
    /// already becomes offline. The answer is the number of endpoints that
    /// changed.
    pub fn update_offline_endpoints(&mut self, now: i64, threshold_minutes: i64) -> (r: u64)
        requires
            old(self).wf(),
        ensures
            final(self).wf(),
            final(self)@ == swept(old(self)@, now, threshold_minutes),
            r == sweep_count(old(self)@, now, threshold_minutes),
    {
        let mut changed: u64 = 0;
        let mut i: usize = 0;
        let n = self.endpoints.len();
        assert(old(self)@.take(0) =~= Seq::<EndpointState>::empty());
        while i < n
            invariant
                i <= n,
                n == self.endpoints.len(),
                n == old(self)@.len(),
                n <= u64::MAX,
                changed == sweep_count(old(self)@.take(i as int), now, threshold_minutes),
                changed <= i,
                forall|j: int|
                    0 <= j < i ==> #[trigger] self@[j] == swept_one(
                        old(self)@[j],
                        now,
                        threshold_minutes,
                    ),
                forall|j: int| i <= j < n ==> #[trigger] self@[j] == old(self)@[j],
            decreases n - i,
        {
            let ghost before = self@;
            proof {
                assert(self@[i as int] == old(self)@[i as int]);
                assert(self.endpoints@[i as int]@ == self@[i as int]);
            }
            let turn = is_silent(&self.endpoints[i], now, threshold_minutes)
                && self.endpoints[i].status != EndpointStatus::Offline;
            assert(turn == sweep_turns(old(self)@[i as int], now, threshold_minutes));
            if turn {
                let fresh = Endpoint {
                    id: self.endpoints[i].id,
                    hostname: self.endpoints[i].hostname.clone(),
                    os: copy_optional(&self.endpoints[i].os),
                    os_version: copy_optional(&self.endpoints[i].os_version),
                    agent_version: copy_optional(&self.endpoints[i].agent_version),
                    ip_addresses: copy_texts(&self.endpoints[i].ip_addresses),
                    last_seen: self.endpoints[i].last_seen,
                    status: EndpointStatus::Offline,
                    created_at: self.endpoints[i].created_at,
                };
                self.endpoints.set(i, fresh);
                changed += 1;
            }
            proof {
                assert(old(self)@.take(i + 1).drop_last() =~= old(self)@.take(i as int));
                assert(old(self)@.take(i + 1).last() == old(self)@[i as int]);
                assert forall|j: int| 0 <= j < n && j != i implies #[trigger] self@[j]
                    == before[j] by {}
                assert(self@[i as int] == swept_one(old(self)@[i as int], now, threshold_minutes));
            }
            i += 1;
        }
        proof {
            assert(old(self)@.take(n as int) =~= old(self)@);
            assert(self@ =~= swept(old(self)@, now, threshold_minutes));
            assert(distinct(self@)) by {
                assert forall|a: int, b: int| 0 <= a < b < self@.len() implies (
                #[trigger] self@[a]).hostname != (#[trigger] self@[b]).hostname && self@[a].id
                    != self@[b].id by {
                    assert(old(self)@[a].hostname != old(self)@[b].hostname);
                    assert(old(self)@[a].id != old(self)@[b].id);
                }
            }
        }
        changed
    }

    /// Removes the record of the endpoint `id`. The answer says whether there
    /// was one.
    pub fn delete_endpoint(&mut self, id: u128) -> (r: bool)
        requires
            old(self).wf(),
        ensures
            final(self).wf(),
            r == knows_id(old(self)@, id),
            r ==> final(self)@ == old(self)@.remove(id_index(old(self)@, id)),
            !r ==> final(self)@ == old(self)@,
    {
        match self.position_of_id(id) {
            Some(i) => {
                proof {
                    assert(id_index(old(self)@, id) == i) by {
                        let k = id_index(old(self)@, id);
                        assert(old(self)@[i as int].id == id);
                        if k < i {
                            assert(old(self)@[k].id != old(self)@[i as int].id);
                        } else if i < k {
                            assert(old(self)@[i as int].id != old(self)@[k].id);
                        }
                    }
                }
                self.endpoints.remove(i);
                proof {
                    assert(self@ =~= old(self)@.remove(i as int));
                    assert(distinct(self@)) by {
                        assert forall|a: int, b: int| 0 <= a < b < self@.len() implies (
                        #[trigger] self@[a]).hostname != (#[trigger] self@[b]).hostname
                            && self@[a].id != self@[b].id by {
                            let a0 = if a < i { a } else { a + 1 };
                            let b0 = if b < i { b } else { b + 1 };
                            assert(self@[a] == old(self)@[a0]);
                            assert(self@[b] == old(self)@[b0]);
                            assert(old(self)@[a0].hostname != old(self)@[b0].hostname);
                        }
                    }
                }
                true
            },
            None => false,
        }
    }

    /// How many endpoints there are, in all and by status.
    pub fn get_endpoint_counts(&self) -> (r: EndpointCounts)
        requires
            self@.len() <= i64::MAX,
        ensures
            r.total == self@.len(),
            r.online == count_status(self@, EndpointStatus::Online),
            r.offline == count_status(self@, EndpointStatus::Offline),
            r.warning == count_status(self@, EndpointStatus::Warning),
            r.critical == count_status(self@, EndpointStatus::Critical),
    {
        let mut online: i64 = 0;
        let mut offline: i64 = 0;
        let mut warning: i64 = 0;
        let mut critical: i64 = 0;
        let mut i: usize = 0;
        let n = self.endpoints.len();
        assert(self@.take(0) =~= Seq::<EndpointState>::empty());
        while i < n
            invariant
                i <= n,
                n == self@.len(),
                n == self.endpoints.len(),
                n <= i64::MAX,
                online == count_status(self@.take(i as int), EndpointStatus::Online),
                offline == count_status(self@.take(i as int), EndpointStatus::Offline),
                warning == count_status(self@.take(i as int), EndpointStatus::Warning),
                critical == count_status(self@.take(i as int), EndpointStatus::Critical),
                online <= i,
                offline <= i,
                warning <= i,
                critical <= i,
            decreases n - i,
        {
            proof {
                assert(self@.take(i + 1).drop_last() =~= self@.take(i as int));
                assert(self@.take(i + 1).last() == self@[i as int]);
            }
            match self.endpoints[i].status {
                EndpointStatus::Online => { online += 1; },
                EndpointStatus::Offline => { offline += 1; },
                EndpointStatus::Warning => { warning += 1; },
                EndpointStatus::Critical => { critical += 1; },
            }
            i += 1;
        }
        proof {
            assert(self@.take(n as int) =~= self@);
        }
        EndpointCounts { total: n as i64, online, offline, warning, critical }
    }
}

/// A registration keeps the records distinct.
pub proof fn registration_keeps_distinct(
    fleet: Seq<EndpointState>,
    id: u128,
    hostname: Seq<char>,
    who: Identity,
    now: i64,
)
    requires
        distinct(fleet),
    ensures
        distinct(registered(fleet, id, hostname, who, now)),
{
    let after = registered(fleet, id, hostname, who, now);
    if knows_hostname(fleet, hostname) {
        assert forall|a: int, b: int| 0 <= a < b < after.len() implies (#[trigger] after[a]).hostname
            != (#[trigger] after[b]).hostname && after[a].id != after[b].id by {
            assert(fleet[a].hostname != fleet[b].hostname);
            assert(fleet[a].id != fleet[b].id);
        }
    } else if !knows_id(fleet, id) {
        assert forall|a: int, b: int| 0 <= a < b < after.len() implies (#[trigger] after[a]).hostname
            != (#[trigger] after[b]).hostname && after[a].id != after[b].id by {
            if b < fleet.len() {
                assert(fleet[a].hostname != fleet[b].hostname);
                assert(fleet[a].id != fleet[b].id);
            } else {
                assert(fleet[a].hostname != hostname);
                assert(fleet[a].id != id);
            }
        }
    }
}

/// A first registration, under a fresh identifier that no record holds,
/// answers with that identifier and adds one record: the new record is the
/// only one that holds the hostname, it is online and seen at the time of
/// the registration, and the records before it stay as they are.
pub proof fn first_registration_adds_one_record(
    fleet: Seq<EndpointState>,
    id: u128,
    hostname: Seq<char>,
    who: Identity,
    now: i64,
)
    requires
        distinct(fleet),
        !knows_hostname(fleet, hostname),
        !knows_id(fleet, id),
    ensures
        registered_id(fleet, id, hostname) == Some(id),
        registered(fleet, id, hostname, who, now) == fleet.push(created(id, hostname, who, now)),
        distinct(registered(fleet, id, hostname, who, now)),
        knows_hostname(registered(fleet, id, hostname, who, now), hostname),
        hostname_index(registered(fleet, id, hostname, who, now), hostname) == fleet.len(),
        knows_id(registered(fleet, id, hostname, who, now), id),
        id_index(registered(fleet, id, hostname, who, now), id) == fleet.len(),
        forall|i: int|
            0 <= i < fleet.len() ==> (#[trigger] registered(fleet, id, hostname, who, now)[i])
                == fleet[i],
{
    let after = registered(fleet, id, hostname, who, now);
    let at = fleet.len() as int;
    registration_keeps_distinct(fleet, id, hostname, who, now);
    assert(after[at].hostname == hostname);
    assert(after[at].id == id);
    let h = hostname_index(after, hostname);
    if h < at {
        assert(fleet[h].hostname == hostname);
    }
    let k = id_index(after, id);
    if k < at {
        assert(fleet[k].id == id);
    }
}

/// A registration of a new hostname under an identifier that a record holds
/// already is refused, and changes nothing.
pub proof fn taken_identifier_is_refused(
    fleet: Seq<EndpointState>,
    id: u128,
    hostname: Seq<char>,
    who: Identity,
    now: i64,
)
    requires
        !knows_hostname(fleet, hostname),
        knows_id(fleet, id),
    ensures
        registered_id(fleet, id, hostname) is None,
        registered(fleet, id, hostname, who, now) == fleet,
{
}

/// Being seen keeps the records distinct.
pub proof fn seen_keeps_distinct(fleet: Seq<EndpointState>, id: u128, status: EndpointStatus, now: i64)
    requires
        distinct(fleet),
    ensures
        distinct(seen(fleet, id, status, now)),
        seen(fleet, id, status, now).len() == fleet.len(),
{
    let after = seen(fleet, id, status, now);
    assert forall|a: int, b: int| 0 <= a < b < after.len() implies (#[trigger] after[a]).hostname
        != (#[trigger] after[b]).hostname && after[a].id != after[b].id by {
        assert(fleet[a].hostname != fleet[b].hostname);
        assert(fleet[a].id != fleet[b].id);
    }
}

/// Registering a hostname again answers with the identifier of the first
/// registration, whatever fresh identifier the second one brings, and adds no
/// record: one record holds the hostname, and the records stay distinct.
pub proof fn registration_is_stable(
    fleet: Seq<EndpointState>,
    hostname: Seq<char>,
    first_id: u128,
    first: Identity,
    first_time: i64,
    second_id: u128,
    second: Identity,
    second_time: i64,
)
    requires
        distinct(fleet),
        registered_id(fleet, first_id, hostname) is Some,
    ensures
        ({
            let once = registered(fleet, first_id, hostname, first, first_time);
            let twice = registered(once, second_id, hostname, second, second_time);
            &&& registered_id(once, second_id, hostname) == registered_id(
                fleet,
                first_id,
                hostname,
            )
            &&& twice.len() == once.len()
            &&& distinct(twice)
            &&& knows_hostname(twice, hostname)
            &&& twice[hostname_index(twice, hostname)].id == registered_id(
                fleet,
                first_id,
                hostname,
            )->0
            &&& twice[hostname_index(twice, hostname)] == refreshed(
                once[hostname_index(once, hostname)],
                second,
                second_time,
            )
        }),
{
    let once = registered(fleet, first_id, hostname, first, first_time);
    let twice = registered(once, second_id, hostname, second, second_time);
    registration_keeps_distinct(fleet, first_id, hostname, first, first_time);
    registration_keeps_distinct(once, second_id, hostname, second, second_time);
    // Where the hostname's record stands after the first registration.
    let at = if knows_hostname(fleet, hostname) {
        hostname_index(fleet, hostname)
    } else {
        fleet.len() as int
    };
    assert(once[at].hostname == hostname);
    assert(once[at].id == registered_id(fleet, first_id, hostname)->0);
    assert(knows_hostname(once, hostname));
    let k = hostname_index(once, hostname);
    assert(k == at) by {
        if k < at {
            assert(once[k].hostname != once[at].hostname);
        } else if at < k {
            assert(once[at].hostname != once[k].hostname);
        }
    }
    assert(twice[at].hostname == hostname);
    assert(knows_hostname(twice, hostname));
    let m = hostname_index(twice, hostname);
    assert(m == at) by {
        if m < at {
            assert(twice[m].hostname != twice[at].hostname);
        } else if at < m {
            assert(twice[at].hostname != twice[m].hostname);
        }
    }
}

/// A sweep turns every silent endpoint offline, and leaves the endpoints
/// that are not silent as they are.
pub proof fn sweep_turns_silent_offline(
    fleet: Seq<EndpointState>,
    now: i64,
    threshold_minutes: i64,
    i: int,
)
    requires
        0 <= i < fleet.len(),
    ensures
        silent(fleet[i], now, threshold_minutes) ==> swept(fleet, now, threshold_minutes)[i].status
            == EndpointStatus::Offline,
        !silent(fleet[i], now, threshold_minutes) ==> swept(fleet, now, threshold_minutes)[i]
            == fleet[i],
        swept(fleet, now, threshold_minutes)[i].last_seen == fleet[i].last_seen,
{
}

/// An endpoint that is offline already does not change in a sweep, whenever
/// the sweep runs and whatever its threshold.
pub proof fn sweep_leaves_offline(fleet: Seq<EndpointState>, now: i64, threshold_minutes: i64, i: int)
    requires
        0 <= i < fleet.len(),
        fleet[i].status == EndpointStatus::Offline,
    ensures
        swept(fleet, now, threshold_minutes)[i] == fleet[i],
        !sweep_turns(fleet[i], now, threshold_minutes),
{
}

/// A sweep counts no endpoint that is offline already: where every silent
/// endpoint is offline, it counts none.
pub proof fn sweep_counts_turned(fleet: Seq<EndpointState>, now: i64, threshold_minutes: i64)
    requires
        forall|i: int|
            0 <= i < fleet.len() ==> !sweep_turns(#[trigger] fleet[i], now, threshold_minutes),
    ensures
        sweep_count(fleet, now, threshold_minutes) == 0,
    decreases fleet.len(),
{
    if fleet.len() > 0 {
        let rest = fleet.drop_last();
        assert forall|i: int| 0 <= i < rest.len() implies !sweep_turns(
            #[trigger] rest[i],
            now,
            threshold_minutes,
        ) by {
            assert(rest[i] == fleet[i]);
        }
        sweep_counts_turned(rest, now, threshold_minutes);
        assert(!sweep_turns(fleet[fleet.len() - 1], now, threshold_minutes));
    }
}

/// A second sweep at the same time changes nothing and counts nothing: an
/// endpoint goes offline once.
pub proof fn sweep_settles(fleet: Seq<EndpointState>, now: i64, threshold_minutes: i64)
    ensures
        swept(swept(fleet, now, threshold_minutes), now, threshold_minutes) == swept(
            fleet,
            now,
            threshold_minutes,
        ),
        sweep_count(swept(fleet, now, threshold_minutes), now, threshold_minutes) == 0,
{
    let once = swept(fleet, now, threshold_minutes);
    assert(swept(once, now, threshold_minutes) =~= once);
    sweep_counts_turned(once, now, threshold_minutes);
}

} // verus!
