//! The server's side of the synchronization protocol: who may call, what
//! each of the four calls does to the fleet, and how an endpoint's status
//! follows from heartbeats and check results.
//!
//! Every call carries a shared secret. Where it is absent or wrong the call
//! fails with an authorization error before anything else happens.

use crate::fleet::{
    distinct, first_registration_adds_one_record, id_index, knows_hostname, knows_id, registered,
    registered_id, seen, seen_keeps_distinct, silent, swept, EndpointState, Fleet, Identity,
    MILLIS_PER_MINUTE,
};
use crate::models::{CheckStatus, EndpointStatus, Severity, SystemSnapshot};
use crate::params::ParamValue;
use crate::protocol::{
    AgentCheckDefinition, AgentCheckResult, ChecksResponse, ErrorResponse, HeartbeatRequest,
    HeartbeatResponse, RegisterRequest, RegisterResponse, SubmitResultsResponse,
    SystemSnapshotData,
};
use crate::text::{decimal, decimal_text, join3, texts_of};
use vstd::prelude::*;
use vstd::string::*;

verus! {

/// The ways in which a call can fail.
#[derive(Debug, Clone, Copy, PartialEq, Eq, Structural)]
pub enum ApiStatus {
    BadRequest,
    Unauthorized,
    NotFound,
    Internal,
}

impl ApiStatus {
    /// The status code of the failure.
    pub open spec fn code_of(self) -> u16 {
        match self {
            ApiStatus::BadRequest => 400,
            ApiStatus::Unauthorized => 401,
            ApiStatus::NotFound => 404,
            ApiStatus::Internal => 500,
        }
    }

    /// The status line of the failure: its code and its reason.
    pub open spec fn line(self) -> Seq<char> {
        match self {
            ApiStatus::BadRequest => "400 Bad Request"@,
            ApiStatus::Unauthorized => "401 Unauthorized"@,
            ApiStatus::NotFound => "404 Not Found"@,
            ApiStatus::Internal => "500 Internal Server Error"@,
        }
    }

    pub fn code(&self) -> (r: u16)
        ensures
            r == self.code_of(),
    {
        match self {
            ApiStatus::BadRequest => 400,
            ApiStatus::Unauthorized => 401,
            ApiStatus::NotFound => 404,
            ApiStatus::Internal => 500,
        }
    }

    pub fn as_str(&self) -> (r: &'static str)
        ensures
            r@ == self.line(),
    {
        match self {
            ApiStatus::BadRequest => "400 Bad Request",
            ApiStatus::Unauthorized => "401 Unauthorized",
            ApiStatus::NotFound => "404 Not Found",
            ApiStatus::Internal => "500 Internal Server Error",
        }
    }
}

/// A failed call: the kind of failure and what to tell the caller.
#[derive(Debug)]
pub struct ApiError {
    pub status: ApiStatus,
    pub message: String,
}

impl View for ApiError {
    type V = (ApiStatus, Seq<char>);

    open spec fn view(&self) -> (ApiStatus, Seq<char>) {
        (self.status, self.message@)
    }
}

impl ApiError {
    pub fn new(status: ApiStatus, message: String) -> (r: ApiError)
        ensures
            r.status == status,
            r.message == message,
    {
        ApiError { status, message }
    }

    pub fn bad_request(message: String) -> (r: ApiError)
        ensures
            r.status == ApiStatus::BadRequest,
            r.message == message,
    {
        ApiError::new(ApiStatus::BadRequest, message)
    }

    pub fn not_found(message: String) -> (r: ApiError)
        ensures
            r.status == ApiStatus::NotFound,
            r.message == message,
    {
        ApiError::new(ApiStatus::NotFound, message)
    }

    pub fn unauthorized(message: String) -> (r: ApiError)
        ensures
            r.status == ApiStatus::Unauthorized,
            r.message == message,
    {
        ApiError::new(ApiStatus::Unauthorized, message)
    }

    pub fn internal(message: String) -> (r: ApiError)
        ensures
            r.status == ApiStatus::Internal,
            r.message == message,
    {
        ApiError::new(ApiStatus::Internal, message)
    }

    /// The failure of the store, as the caller is told of it.
    pub fn database() -> (r: ApiError)
        ensures
            r@ == (ApiStatus::Internal, "Database error"@),
    {
        ApiError::internal(String::from_str("Database error"))
    }

    /// The body that reports the failure.
    pub fn into_response(self) -> (r: ErrorResponse)
        ensures
            r.error@ == self.status.line(),
            r.message == self.message,
    {
        ErrorResponse::new(String::from_str(self.status.as_str()), self.message)
    }
}

/// Why a call is not authorized, if it is not: the secret is absent, or it
/// is not the server's, letter for letter.
pub open spec fn refusal(provided: Option<Seq<char>>, expected: Seq<char>) -> Option<
    (ApiStatus, Seq<char>),
> {
    match provided {
        None => Some((ApiStatus::Unauthorized, "Missing agent secret header"@)),
        Some(secret) => if secret == expected {
            None
        } else {
            Some((ApiStatus::Unauthorized, "Invalid agent secret"@))
        },
    }
}

/// The secret that a call presented, as a text.
pub open spec fn presented(provided: Option<&str>) -> Option<Seq<char>> {
    match provided {
        Some(s) => Some(s@),
        None => None,
    }
}

/// Admits a call exactly when it presents the server's secret.
pub fn verify_agent_secret(provided: Option<&str>, expected_secret: &str) -> (r: Result<
    (),
    ApiError,
>)
    ensures
        match r {
            Ok(_) => refusal(presented(provided), expected_secret@) is None,
            Err(e) => refusal(presented(provided), expected_secret@) == Some(e@),
        },
{
    match provided {
        None => Err(ApiError::unauthorized(String::from_str("Missing agent secret header"))),
        Some(secret) => if secret.eq(expected_secret) {
            Ok(())
        } else {
            Err(ApiError::unauthorized(String::from_str("Invalid agent secret")))
        },
    }
}

// ---------------------------------------------------------------------------
// register
// ---------------------------------------------------------------------------

/// What a registration request says of the agent.
pub open spec fn identity_of(req: RegisterRequest) -> Identity {
    Identity {
        os: req.os@,
        os_version: req.os_version@,
        agent_version: req.agent_version@,
        ip_addresses: texts_of(req.ip_addresses@),
    }
}

/// Registration: the endpoint's record is created, or refreshed where its
/// hostname is known already, and the call answers with the identifier of
/// the record. `fresh_id` is an identifier that the caller made for the case
/// that a record is created.
pub fn register(
    fleet: &mut Fleet,
    provided: Option<&str>,
    expected_secret: &str,
    req: &RegisterRequest,
    fresh_id: u128,
    now: i64,
) -> (r: Result<RegisterResponse, ApiError>)
    requires
        old(fleet).wf(),
    ensures
        final(fleet).wf(),
        match r {
            Ok(response) => {
                &&& refusal(presented(provided), expected_secret@) is None
                &&& registered_id(old(fleet)@, fresh_id, req.hostname@) == Some(
                    response.endpoint_id,
                )
                &&& response.message@ == "Registration successful"@
                &&& response.message@.len() > 0
                &&& final(fleet)@ == registered(
                    old(fleet)@,
                    fresh_id,
                    req.hostname@,
                    identity_of(*req),
                    now,
                )
            },
            Err(e) => {
                &&& final(fleet)@ == old(fleet)@
                &&& match refusal(presented(provided), expected_secret@) {
                    Some(why) => e@ == why,
                    None => registered_id(old(fleet)@, fresh_id, req.hostname@) is None && e@ == (
                        ApiStatus::Internal,
                        "Database error"@,
                    ),
                }
            },
        },
{
    proof {
        reveal_strlit("Registration successful");
    }
    match verify_agent_secret(provided, expected_secret) {
        Err(e) => { return Err(e); },
        Ok(_) => {},
    }
    match fleet.create_endpoint(
        fresh_id,
        req.hostname.as_str(),
        req.os.as_str(),
        req.os_version.as_str(),
        req.agent_version.as_str(),
        &req.ip_addresses,
        now,
    ) {
        Ok(endpoint_id) => Ok(
            RegisterResponse { endpoint_id, message: String::from_str("Registration successful") },
        ),
        Err(_) => Err(ApiError::database()),
    }
}

// ---------------------------------------------------------------------------
// heartbeat
// ---------------------------------------------------------------------------

/// The snapshot holds the data, under the endpoint's identifier.
pub open spec fn holds(snapshot: SystemSnapshot, endpoint_id: u128, data: SystemSnapshotData) -> bool {
    &&& snapshot.endpoint_id == endpoint_id
    &&& snapshot.collected_at == data.collected_at
    &&& snapshot.cpu_usage_bits == data.cpu_usage_bits
    &&& snapshot.memory_total == data.memory_total
    &&& snapshot.memory_used == data.memory_used
    &&& snapshot.disk_total == data.disk_total
    &&& snapshot.disk_used == data.disk_used
    &&& snapshot.processes == data.processes
    &&& snapshot.open_ports == data.open_ports
    &&& snapshot.installed_software == data.installed_software
}

/// Why a call about the endpoint `id` fails, if it does: it is not
/// authorized, or no record holds the identifier.
pub open spec fn rejection(
    fleet: Seq<EndpointState>,
    provided: Option<Seq<char>>,
    expected: Seq<char>,
    id: u128,
) -> Option<(ApiStatus, Seq<char>)> {
    match refusal(provided, expected) {
        Some(why) => Some(why),
        None => if knows_id(fleet, id) {
            None
        } else {
            Some((ApiStatus::NotFound, "Endpoint not found"@))
        },
    }
}

/// Admits a call about the endpoint `id`: it must be authorized, and the
/// endpoint must be known.
pub fn authorize_for(fleet: &Fleet, provided: Option<&str>, expected_secret: &str, id: u128) -> (r: Result<
    (),
    ApiError,
>)
    requires
        fleet.wf(),
    ensures
        match r {
            Ok(_) => rejection(fleet@, presented(provided), expected_secret@, id) is None,
            Err(e) => rejection(fleet@, presented(provided), expected_secret@, id) == Some(e@),
        },
{
    match verify_agent_secret(provided, expected_secret) {
        Err(e) => { return Err(e); },
        Ok(_) => {},
    }
    if fleet.get_endpoint_by_id(id).is_none() {
        return Err(ApiError::not_found(String::from_str("Endpoint not found")));
    }
    Ok(())
}

/// Heartbeat: the snapshot is kept, and the endpoint is online and seen at
/// `now`, whatever its status was.
pub fn heartbeat(
    fleet: &mut Fleet,
    snapshots: &mut Vec<SystemSnapshot>,
    provided: Option<&str>,
    expected_secret: &str,
    req: HeartbeatRequest,
    now: i64,
) -> (r: Result<HeartbeatResponse, ApiError>)
    requires
        old(fleet).wf(),
    ensures
        final(fleet).wf(),
        match r {
            Ok(response) => {
                &&& rejection(old(fleet)@, presented(provided), expected_secret@, req.endpoint_id)
                    is None
                &&& response.status@ == "ok"@
                &&& response.server_time == now
                &&& final(fleet)@ == seen(
                    old(fleet)@,
                    req.endpoint_id,
                    EndpointStatus::Online,
                    now,
                )
                &&& final(snapshots)@.len() == old(snapshots)@.len() + 1
                &&& final(snapshots)@.drop_last() == old(snapshots)@
                &&& holds(final(snapshots)@.last(), req.endpoint_id, req.snapshot)
            },
            Err(e) => {
                &&& rejection(old(fleet)@, presented(provided), expected_secret@, req.endpoint_id)
                    == Some(e@)
                &&& final(fleet)@ == old(fleet)@
                &&& final(snapshots)@ == old(snapshots)@
            },
        },
{
    match authorize_for(fleet, provided, expected_secret, req.endpoint_id) {
        Err(e) => { return Err(e); },
        Ok(_) => {},
    }
    let endpoint_id = req.endpoint_id;
    snapshots.push(req.snapshot.into_snapshot(endpoint_id));
    fleet.update_endpoint_heartbeat(endpoint_id, EndpointStatus::Online, now);
    proof {
        assert(snapshots@.drop_last() =~= old(snapshots)@);
    }
    Ok(HeartbeatResponse { status: String::from_str("ok"), server_time: now })
}

// ---------------------------------------------------------------------------
// checks
// ---------------------------------------------------------------------------

/// Check definition as the store keeps it.
#[derive(Debug)]
pub struct CheckDefinitionRow {
    pub id: u128,
    pub name: String,
    pub description: Option<String>,
    pub check_type: String,
    pub parameters: ParamValue,
    pub severity: String,
    pub enabled: bool,
    pub created_at: i64,
    pub updated_at: i64,
}

/// What an agent is told of a check definition: its identifier, name, kind,
/// parameters and severity. A severity that the store holds under no known
/// name counts as medium.
pub open spec fn projection(row: CheckDefinitionRow) -> AgentCheckDefinition {
    AgentCheckDefinition {
        id: row.id,
        name: row.name,
        check_type: row.check_type,
        parameters: row.parameters,
        severity: Severity::named_or_medium(row.severity@),
    }
}

/// The checks that agents are told of: the enabled ones, in the order of the
/// store. A disabled check is invisible to agents.
pub open spec fn offered(rows: Seq<CheckDefinitionRow>) -> Seq<AgentCheckDefinition>
    decreases rows.len(),
{
    if rows.len() == 0 {
        Seq::empty()
    } else if rows.last().enabled {
        offered(rows.drop_last()).push(projection(rows.last()))
    } else {
        offered(rows.drop_last())
    }
}

/// What an agent is told of a check definition.
pub fn project(row: CheckDefinitionRow) -> (r: AgentCheckDefinition)
    ensures
        r == projection(row),
{
    let severity = Severity::parse_or_medium(row.severity.as_str());
    AgentCheckDefinition {
        id: row.id,
        name: row.name,
        check_type: row.check_type,
        parameters: row.parameters,
        severity,
    }
}

/// Check distribution: the enabled definitions, projected for agents.
pub fn get_checks(provided: Option<&str>, expected_secret: &str, rows: Vec<CheckDefinitionRow>) -> (r:
    Result<ChecksResponse, ApiError>)
    ensures
        match r {
            Ok(response) => refusal(presented(provided), expected_secret@) is None
                && response.checks@ == offered(rows@),
            Err(e) => refusal(presented(provided), expected_secret@) == Some(e@),
        },
{
    match verify_agent_secret(provided, expected_secret) {
        Err(e) => { return Err(e); },
        Ok(_) => {},
    }
    let ghost all = rows@;
    let mut rows = rows;
    let mut reversed: Vec<AgentCheckDefinition> = Vec::new();
    // Taken from the end, the rows come out last first.
    while rows.len() > 0
        invariant
            rows@.len() <= all.len(),
            rows@ == all.take(rows@.len() as int),
            offered(all) == offered(rows@) + reversed@.reverse(),
        decreases rows.len(),
    {
        let ghost before = rows@;
        let ghost done = reversed@;
        let row = rows.pop().unwrap();
        proof {
            assert(rows@ =~= before.drop_last());
            assert(rows@ =~= all.take(rows@.len() as int));
        }
        if row.enabled {
            reversed.push(project(row));
            proof {
                assert(reversed@.reverse() =~= seq![projection(row)] + done.reverse());
                assert(offered(before) == offered(rows@).push(projection(row)));
                assert(offered(rows@).push(projection(row)) + done.reverse() =~= offered(rows@)
                    + reversed@.reverse());
            }
        }
    }
    proof {
        assert(offered(rows@) =~= Seq::<AgentCheckDefinition>::empty());
        assert(offered(all) =~= reversed@.reverse());
    }
    let mut checks: Vec<AgentCheckDefinition> = Vec::new();
    let ghost turned = reversed@;
    while reversed.len() > 0
        invariant
            reversed@.len() <= turned.len(),
            reversed@ == turned.take(reversed@.len() as int),
            checks@ == turned.skip(reversed@.len() as int).reverse(),
        decreases reversed.len(),
    {
        let ghost before = reversed@;
        let ghost done = checks@;
        let check = reversed.pop().unwrap();
        checks.push(check);
        proof {
            assert(reversed@ =~= before.drop_last());
            assert(reversed@ =~= turned.take(reversed@.len() as int));
            assert(checks@ =~= turned.skip(reversed@.len() as int).reverse());
        }
    }
    proof {
        assert(turned.skip(0) =~= turned);
        assert(checks@ =~= turned.reverse());
    }
    Ok(ChecksResponse { checks })
}

// ---------------------------------------------------------------------------
// results
// ---------------------------------------------------------------------------

/// Whether the store kept the result at place `i`. A result without a word
/// of the store counts as not kept.
pub open spec fn kept(stored: Seq<bool>, i: int) -> bool {
    0 <= i < stored.len() && stored[i]
}

/// How many results of a batch the store kept.
pub open spec fn accepted_count(results: Seq<AgentCheckResult>, stored: Seq<bool>) -> nat
    decreases results.len(),
{
    if results.len() == 0 {
        0
    } else {
        accepted_count(results.drop_last(), stored) + if kept(stored, results.len() - 1) {
            1nat
        } else {
            0nat
        }
    }
}

/// Some result of the batch is a failure, whether or not the store kept it.
pub open spec fn has_failures(results: Seq<AgentCheckResult>) -> bool {
    exists|i: int| 0 <= i < results.len() && (#[trigger] results[i]).status == CheckStatus::Fail
}

/// The status that a batch of results gives its endpoint: `Warning` where
/// any result of the batch is a failure, `Online` otherwise.
pub open spec fn batch_status(results: Seq<AgentCheckResult>) -> EndpointStatus {
    if has_failures(results) {
        EndpointStatus::Warning
    } else {
        EndpointStatus::Online
    }
}

/// What a batch of results came to.
#[derive(Debug, Clone, Copy)]
pub struct BatchTally {
    pub accepted: usize,
    pub status: EndpointStatus,
}

/// Counts the results that the store kept, and derives the endpoint's
/// status from all results of the batch: a failure counts where the store
/// did not keep it, too.
pub fn tally_results(results: &Vec<AgentCheckResult>, stored: &Vec<bool>) -> (r: BatchTally)
    ensures
        r.accepted == accepted_count(results@, stored@),
        r.status == batch_status(results@),
{
    let mut accepted: usize = 0;
    let mut failures = false;
    let mut i: usize = 0;
    assert(results@.take(0) =~= Seq::<AgentCheckResult>::empty());
    while i < results.len()
        invariant
            i <= results.len(),
            accepted == accepted_count(results@.take(i as int), stored@),
            accepted <= i,
            failures == has_failures(results@.take(i as int)),
        decreases results.len() - i,
    {
        let ghost head = results@.take(i as int);
        let ghost next = results@.take(i + 1);
        proof {
            assert(next.drop_last() =~= head);
            assert(next.last() == results@[i as int]);
        }
        if i < stored.len() && stored[i] {
            accepted += 1;
        }
        if results[i].status == CheckStatus::Fail {
            failures = true;
        }
        proof {
            if has_failures(head) {
                let k = choose|k: int|
                    0 <= k < head.len() && (#[trigger] head[k]).status == CheckStatus::Fail;
                assert(next[k] == head[k]);
            }
            if results@[i as int].status == CheckStatus::Fail {
                assert(next[i as int].status == CheckStatus::Fail);
            }
            if has_failures(next) {
                let k = choose|k: int|
                    0 <= k < next.len() && (#[trigger] next[k]).status == CheckStatus::Fail;
                if k < i {
                    assert(head[k] == next[k]);
                }
            }
        }
        i += 1;
    }
    proof {
        assert(results@.take(results@.len() as int) =~= results@);
    }
    BatchTally {
        accepted,
        status: if failures {
            EndpointStatus::Warning
        } else {
            EndpointStatus::Online
        },
    }
}

/// The answer to a batch of which `accepted` results were kept.
pub fn results_response(accepted: usize) -> (r: SubmitResultsResponse)
    ensures
        r.accepted == accepted,
        r.message@ == "Accepted "@ + decimal(accepted as nat) + " results"@,
{
    let number = decimal_text(accepted as u64);
    SubmitResultsResponse { accepted, message: join3("Accepted ", number.as_str(), " results") }
}

/// Result submission: the endpoint is seen at `now`, and its status follows
/// from the results of the batch: `Warning` where any of them is a failure.
/// `stored` says of each result, by its place in the batch, whether the store
/// kept it; a result that was not kept does not abort the batch, and is not
/// counted as accepted.
pub fn submit_results(
    fleet: &mut Fleet,
    provided: Option<&str>,
    expected_secret: &str,
    endpoint_id: u128,
    results: &Vec<AgentCheckResult>,
    stored: &Vec<bool>,
    now: i64,
) -> (r: Result<SubmitResultsResponse, ApiError>)
    requires
        old(fleet).wf(),
    ensures
        final(fleet).wf(),
        match r {
            Ok(response) => {
                &&& rejection(old(fleet)@, presented(provided), expected_secret@, endpoint_id)
                    is None
                &&& response.accepted == accepted_count(results@, stored@)
                &&& response.message@ == "Accepted "@ + decimal(response.accepted as nat)
                    + " results"@
                &&& final(fleet)@ == seen(
                    old(fleet)@,
                    endpoint_id,
                    batch_status(results@),
                    now,
                )
            },
            Err(e) => {
                &&& rejection(old(fleet)@, presented(provided), expected_secret@, endpoint_id)
                    == Some(e@)
                &&& final(fleet)@ == old(fleet)@
            },
        },
{
    match authorize_for(fleet, provided, expected_secret, endpoint_id) {
        Err(e) => { return Err(e); },
        Ok(_) => {},
    }
    let tally = tally_results(results, stored);
    fleet.update_endpoint_heartbeat(endpoint_id, tally.status, now);
    Ok(results_response(tally.accepted))
}

/// A batch in which any result is a failure gives the endpoint the status
/// `Warning`, whatever else the batch holds and whatever the store kept; a
/// batch without a failure gives it `Online`.
pub proof fn failure_in_batch_warns(results: Seq<AgentCheckResult>)
    ensures
        batch_status(results) == EndpointStatus::Warning <==> exists|i: int|
            0 <= i < results.len() && (#[trigger] results[i]).status == CheckStatus::Fail,
        batch_status(results) == EndpointStatus::Online <==> forall|i: int|
            0 <= i < results.len() ==> (#[trigger] results[i]).status != CheckStatus::Fail,
        batch_status(results) != EndpointStatus::Offline,
        batch_status(results) != EndpointStatus::Critical,
{
}

/// The store keeps no more results than the batch holds.
pub proof fn accepted_within_batch(results: Seq<AgentCheckResult>, stored: Seq<bool>)
    ensures
        accepted_count(results, stored) <= results.len(),
    decreases results.len(),
{
    if results.len() > 0 {
        accepted_within_batch(results.drop_last(), stored);
    }
}

/// Being seen changes the record of the endpoint and no other: the endpoint
/// gets the status and the time, and keeps everything else.
pub proof fn seen_changes_one_record(
    fleet: Seq<EndpointState>,
    id: u128,
    status: EndpointStatus,
    now: i64,
    i: int,
)
    requires
        distinct(fleet),
        0 <= i < fleet.len(),
    ensures
        seen(fleet, id, status, now).len() == fleet.len(),
        fleet[i].id != id ==> seen(fleet, id, status, now)[i] == fleet[i],
        fleet[i].id == id ==> seen(fleet, id, status, now)[i] == (EndpointState {
            last_seen: Some(now),
            status,
            ..fleet[i]
        }),
{
    if knows_id(fleet, id) {
        let k = id_index(fleet, id);
        if fleet[i].id == id {
            if k < i {
                assert(fleet[k].id != fleet[i].id);
            } else if i < k {
                assert(fleet[i].id != fleet[k].id);
            }
        }
    }
}

/// A heartbeat puts its endpoint online and records the time, whatever the
/// endpoint's status was.
pub proof fn heartbeat_sets_online(fleet: Seq<EndpointState>, id: u128, now: i64, i: int)
    requires
        distinct(fleet),
        0 <= i < fleet.len(),
        fleet[i].id == id,
    ensures
        seen(fleet, id, EndpointStatus::Online, now)[i].status == EndpointStatus::Online,
        seen(fleet, id, EndpointStatus::Online, now)[i].last_seen == Some(now),
{
    seen_changes_one_record(fleet, id, EndpointStatus::Online, now, i);
}

/// A batch of results in which any result is a failure leaves its endpoint
/// with the status `Warning`, not `Online`, whatever else the batch holds and
/// whether or not the store kept the failure.
pub proof fn failed_result_sets_warning(
    fleet: Seq<EndpointState>,
    id: u128,
    results: Seq<AgentCheckResult>,
    now: i64,
    i: int,
    failed: int,
)
    requires
        distinct(fleet),
        0 <= i < fleet.len(),
        fleet[i].id == id,
        0 <= failed < results.len(),
        results[failed].status == CheckStatus::Fail,
    ensures
        seen(fleet, id, batch_status(results), now)[i].status == EndpointStatus::Warning,
{
    seen_changes_one_record(fleet, id, batch_status(results), now, i);
}

/// An endpoint's status follows its traffic. A first registration puts the
/// endpoint online; a heartbeat keeps it online and records when it was
/// seen; a batch of results with a failure gives it the status `Warning`;
/// and once it has been silent for longer than the threshold, a sweep turns
/// it offline, where a further sweep leaves it.
pub proof fn status_follows_the_traffic(
    fleet: Seq<EndpointState>,
    id: u128,
    hostname: Seq<char>,
    who: Identity,
    results: Seq<AgentCheckResult>,
    failed: int,
    registered_at: i64,
    beat_at: i64,
    submitted_at: i64,
    swept_at: i64,
    threshold_minutes: i64,
)
    requires
        distinct(fleet),
        !knows_hostname(fleet, hostname),
        !knows_id(fleet, id),
        0 <= failed < results.len(),
        results[failed].status == CheckStatus::Fail,
        submitted_at < swept_at - threshold_minutes * MILLIS_PER_MINUTE,
    ensures
        ({
            let at = fleet.len() as int;
            let once = registered(fleet, id, hostname, who, registered_at);
            let alive = seen(once, id, EndpointStatus::Online, beat_at);
            let judged = seen(alive, id, batch_status(results), submitted_at);
            let silenced = swept(judged, swept_at, threshold_minutes);
            &&& registered_id(fleet, id, hostname) == Some(id)
            &&& once[at].id == id && once[at].hostname == hostname
            &&& once[at].status == EndpointStatus::Online
            &&& alive[at].status == EndpointStatus::Online
            &&& alive[at].last_seen == Some(beat_at)
            &&& judged[at].status == EndpointStatus::Warning
            &&& judged[at].last_seen == Some(submitted_at)
            &&& silenced[at].status == EndpointStatus::Offline
            &&& silenced[at].id == id && silenced[at].hostname == hostname
            &&& swept(silenced, swept_at, threshold_minutes)[at] == silenced[at]
        }),
{
    let at = fleet.len() as int;
    let once = registered(fleet, id, hostname, who, registered_at);
    first_registration_adds_one_record(fleet, id, hostname, who, registered_at);
    assert(once[at].id == id);
    seen_changes_one_record(once, id, EndpointStatus::Online, beat_at, at);
    let alive = seen(once, id, EndpointStatus::Online, beat_at);
    seen_keeps_distinct(once, id, EndpointStatus::Online, beat_at);
    assert(alive[at].id == id);
    seen_changes_one_record(alive, id, batch_status(results), submitted_at, at);
    let judged = seen(alive, id, batch_status(results), submitted_at);
    assert(silent(judged[at], swept_at, threshold_minutes));
}

/// No call and no sweep makes an endpoint critical: a record that is
/// critical after a registration, a heartbeat, a batch of results or a sweep
/// was critical before.
pub proof fn critical_is_never_derived(
    fleet: Seq<EndpointState>,
    id: u128,
    hostname: Seq<char>,
    who: Identity,
    results: Seq<AgentCheckResult>,
    now: i64,
    threshold_minutes: i64,
    i: int,
)
    requires
        distinct(fleet),
        0 <= i < fleet.len(),
    ensures
        registered(fleet, id, hostname, who, now)[i].status == EndpointStatus::Critical
            ==> fleet[i].status == EndpointStatus::Critical,
        seen(fleet, id, EndpointStatus::Online, now)[i].status == EndpointStatus::Critical
            ==> fleet[i].status == EndpointStatus::Critical,
        seen(fleet, id, batch_status(results), now)[i].status == EndpointStatus::Critical
            ==> fleet[i].status == EndpointStatus::Critical,
        swept(fleet, now, threshold_minutes)[i].status == EndpointStatus::Critical ==> fleet[i].status
            == EndpointStatus::Critical,
{
    seen_changes_one_record(fleet, id, EndpointStatus::Online, now, i);
    seen_changes_one_record(fleet, id, batch_status(results), now, i);
}

/// Seconds between two sweeps for silent endpoints.
pub const SWEEP_INTERVAL_SECS: u64 = 60;

/// Seconds between two removals of old snapshots.
pub const CLEANUP_INTERVAL_SECS: u64 = 3600;

/// Days for which snapshots are kept.
pub const SNAPSHOT_RETENTION_DAYS: i64 = 7;

/// What a server is configured with.
#[derive(Debug)]
pub struct Config {
    pub host: String,
    pub port: u16,
    pub database_url: String,
    pub agent_secret: String,
    pub session_secret: String,
    pub offline_threshold_minutes: i64,
}

pub fn default_host() -> (r: String)
    ensures
        r@ == "0.0.0.0"@,
{
    String::from_str("0.0.0.0")
}

pub fn default_port() -> (r: u16)
    ensures
        r == 8080,
{
    8080
}

pub fn default_agent_secret() -> (r: String)
    ensures
        r@ == "change-me-in-production"@,
{
    String::from_str("change-me-in-production")
}

pub fn default_session_secret() -> (r: String)
    ensures
        r@ == "session-secret-change-me"@,
{
    String::from_str("session-secret-change-me")
}

/// Minutes of silence after which an endpoint counts as offline, where none
/// are configured.
pub fn default_offline_threshold() -> (r: i64)
    ensures
        r == 10,
{
    10
}

/// Why the settings of the environment give no configuration.
#[derive(Debug, Clone, Copy, PartialEq, Eq, Structural)]
pub enum ConfigError {
    /// The address of the database is not set.
    MissingDatabaseUrl,
}

impl Config {
    /// The configuration that the settings of the environment give, each
    /// handed over as it was read. The address of the database is required;
    /// every other setting has its default.
    pub fn from_env(
        host: Option<String>,
        port: Option<u16>,
        database_url: Option<String>,
        agent_secret: Option<String>,
        session_secret: Option<String>,
        offline_threshold_minutes: Option<i64>,
    ) -> (r: Result<Config, ConfigError>)
        ensures
            match r {
                Ok(config) => {
                    &&& database_url == Some(config.database_url)
                    &&& config.host@ == match host {
                        Some(h) => h@,
                        None => "0.0.0.0"@,
                    }
                    &&& config.port == match port {
                        Some(p) => p,
                        None => 8080,
                    }
                    &&& config.agent_secret@ == match agent_secret {
                        Some(secret) => secret@,
                        None => "change-me-in-production"@,
                    }
                    &&& config.session_secret@ == match session_secret {
                        Some(secret) => secret@,
                        None => "session-secret-change-me"@,
                    }
                    &&& config.offline_threshold_minutes == match offline_threshold_minutes {
                        Some(minutes) => minutes,
                        None => 10,
                    }
                },
                Err(e) => database_url is None && e == ConfigError::MissingDatabaseUrl,
            },
    {
        let database_url = match database_url {
            Some(url) => url,
            None => { return Err(ConfigError::MissingDatabaseUrl); },
        };
        Ok(
            Config {
                host: match host {
                    Some(h) => h,
                    None => default_host(),
                },
                port: match port {
                    Some(p) => p,
                    None => default_port(),
                },
                database_url,
                agent_secret: match agent_secret {
                    Some(secret) => secret,
                    None => default_agent_secret(),
                },
                session_secret: match session_secret {
                    Some(secret) => secret,
                    None => default_session_secret(),
                },
                offline_threshold_minutes: match offline_threshold_minutes {
                    Some(minutes) => minutes,
                    None => default_offline_threshold(),
                },
            },
        )
    }

    /// The configuration that stands where only the database is configured.
    pub fn with_defaults(database_url: String) -> (r: Config)
        ensures
            r.host@ == "0.0.0.0"@,
            r.port == 8080,
            r.database_url == database_url,
            r.agent_secret@ == "change-me-in-production"@,
            r.session_secret@ == "session-secret-change-me"@,
            r.offline_threshold_minutes == 10,
    {
        Config {
            host: default_host(),
            port: default_port(),
            database_url,
            agent_secret: default_agent_secret(),
            session_secret: default_session_secret(),
            offline_threshold_minutes: default_offline_threshold(),
        }
    }

    /// The address on which the server listens, as a text: host, colon, port.
    pub fn address(&self) -> (r: String)
        ensures
            r@ == self.host@ + ":"@ + decimal(self.port as nat),
    {
        let port = decimal_text(self.port as u64);
        join3(self.host.as_str(), ":", port.as_str())
    }
}

} // verus!
