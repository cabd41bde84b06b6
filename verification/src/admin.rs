//! What the administrative side of the server decides: how rows of the store
//! are shown, what a deletion answers, which results a query selects, and
//! what the dashboard sums up.

use crate::checks::CheckType;
use crate::fleet::EndpointCounts;
use crate::models::{CheckStatus, Endpoint, EndpointStatus, Severity};
use crate::text::{join3, join_texts, joined, text_of, texts_of};
use crate::protocol::{DashboardSummary, RecentCheckResult};
use crate::server::{ApiError, ApiStatus, CheckDefinitionRow};
use vstd::prelude::*;
use vstd::string::*;

verus! {

/// The shortest and the longest name of a check definition, in characters.
pub const NAME_MIN_CHARS: usize = 1;

pub const NAME_MAX_CHARS: usize = 255;

/// Check definition stored in database.
#[derive(Debug)]
pub struct CheckDefinition {
    pub id: u128,
    pub name: String,
    pub description: Option<String>,
    pub check_type: CheckType,
    pub severity: Severity,
    pub enabled: bool,
    pub created_at: i64,
    pub updated_at: i64,
}

impl CheckDefinition {
    /// A definition is valid when its name has from 1 to 255 characters.
    pub open spec fn valid(&self) -> bool {
        NAME_MIN_CHARS <= self.name@.len() <= NAME_MAX_CHARS
    }

    /// Whether the definition is valid.
    pub fn validate(&self) -> (r: bool)
        ensures
            r == self.valid(),
    {
        let n = self.name.as_str().unicode_len();
        NAME_MIN_CHARS <= n && n <= NAME_MAX_CHARS
    }
}

/// What a deletion answers.
#[derive(Debug)]
pub struct DeleteResponse {
    pub success: bool,
    pub message: String,
}

/// The things that an administrator can delete.
#[derive(Debug, Clone, Copy, PartialEq, Eq, Structural)]
pub enum Deleted {
    Endpoint,
    Check,
}

impl Deleted {
    pub open spec fn done(self) -> Seq<char> {
        match self {
            Deleted::Endpoint => "Endpoint deleted"@,
            Deleted::Check => "Check deleted"@,
        }
    }

    pub open spec fn missing(self) -> Seq<char> {
        match self {
            Deleted::Endpoint => "Endpoint not found"@,
            Deleted::Check => "Check not found"@,
        }
    }
}

/// The answer to a deletion: success where a row was removed, and a
/// not-found failure where there was none.
pub fn deletion(what: Deleted, removed: bool) -> (r: Result<DeleteResponse, ApiError>)
    ensures
        match r {
            Ok(response) => removed && response.success && response.message@ == what.done(),
            Err(e) => !removed && e@ == (ApiStatus::NotFound, what.missing()),
        },
{
    if removed {
        Ok(
            DeleteResponse {
                success: true,
                message: String::from_str(
                    match what {
                        Deleted::Endpoint => "Endpoint deleted",
                        Deleted::Check => "Check deleted",
                    },
                ),
            },
        )
    } else {
        Err(
            ApiError::not_found(
                String::from_str(
                    match what {
                        Deleted::Endpoint => "Endpoint not found",
                        Deleted::Check => "Check not found",
                    },
                ),
            ),
        )
    }
}

/// How many check definitions there are, in all and enabled.
#[derive(Debug)]
pub struct CheckCounts {
    pub total: i64,
    pub enabled: i64,
}

/// How many of the rows are enabled.
pub open spec fn enabled_count(rows: Seq<CheckDefinitionRow>) -> nat
    decreases rows.len(),
{
    if rows.len() == 0 {
        0
    } else {
        enabled_count(rows.drop_last()) + if rows.last().enabled {
            1nat
        } else {
            0nat
        }
    }
}

/// Counts the check definitions.
pub fn get_check_counts(rows: &Vec<CheckDefinitionRow>) -> (r: CheckCounts)
    requires
        rows@.len() <= i64::MAX,
    ensures
        r.total == rows@.len(),
        r.enabled == enabled_count(rows@),
{
    let mut enabled: i64 = 0;
    let mut i: usize = 0;
    let n = rows.len();
    assert(rows@.take(0) =~= Seq::<CheckDefinitionRow>::empty());
    while i < n
        invariant
            i <= n,
            n == rows@.len(),
            n <= i64::MAX,
            enabled == enabled_count(rows@.take(i as int)),
            enabled <= i,
        decreases n - i,
    {
        proof {
            assert(rows@.take(i + 1).drop_last() =~= rows@.take(i as int));
            assert(rows@.take(i + 1).last() == rows@[i as int]);
        }
        if rows[i].enabled {
            enabled += 1;
        }
        i += 1;
    }
    proof {
        assert(rows@.take(n as int) =~= rows@);
    }
    CheckCounts { total: n as i64, enabled }
}

/// Which results a query asks for.
#[derive(Debug, Clone, Copy)]
pub struct ResultsQuery {
    pub endpoint_id: Option<u128>,
    pub check_id: Option<u128>,
    pub limit: i64,
}

/// The most results that a query gets, where it names no limit.
pub fn default_limit() -> (r: i64)
    ensures
        r == 100,
{
    100
}

/// The results that a query selects.
#[derive(Debug, Clone, Copy, PartialEq, Eq, Structural)]
pub enum ResultSelection {
    /// The results of one endpoint.
    ForEndpoint(u128),
    /// The results of one check.
    ForCheck(u128),
    /// The most recent results of all endpoints and checks.
    Recent,
}

impl ResultsQuery {
    /// The results that the query selects: those of its endpoint where it
    /// names one, whatever check it names; else those of its check; else the
    /// most recent ones.
    pub fn selection(&self) -> (r: ResultSelection)
        ensures
            r == match (self.endpoint_id, self.check_id) {
                (Some(endpoint_id), _) => ResultSelection::ForEndpoint(endpoint_id),
                (None, Some(check_id)) => ResultSelection::ForCheck(check_id),
                (None, None) => ResultSelection::Recent,
            },
    {
        match self.endpoint_id {
            Some(endpoint_id) => ResultSelection::ForEndpoint(endpoint_id),
            None => match self.check_id {
                Some(check_id) => ResultSelection::ForCheck(check_id),
                None => ResultSelection::Recent,
            },
        }
    }
}

/// A recent result as the store joins it.
#[derive(Debug)]
pub struct RecentResultRow {
    pub id: u128,
    pub endpoint_hostname: String,
    pub check_name: String,
    pub status: String,
    pub message: Option<String>,
    pub collected_at: i64,
}

/// A recent result as the dashboard's summary holds it. A status that the
/// store holds under no known name counts as an error.
pub open spec fn summarized(row: RecentResultRow) -> RecentCheckResult {
    RecentCheckResult {
        endpoint_hostname: row.endpoint_hostname,
        check_name: row.check_name,
        status: CheckStatus::named_or_error(row.status@),
        message: row.message,
        collected_at: row.collected_at,
    }
}

/// A recent result as the dashboard's summary holds it.
pub fn summarize(row: RecentResultRow) -> (r: RecentCheckResult)
    ensures
        r == summarized(row),
{
    let status = CheckStatus::parse_or_error(row.status.as_str());
    RecentCheckResult {
        endpoint_hostname: row.endpoint_hostname,
        check_name: row.check_name,
        status,
        message: row.message,
        collected_at: row.collected_at,
    }
}

/// The dashboard's summary: the counts as they are, and the recent results
/// in the order of the store.
pub fn get_summary(endpoints: &EndpointCounts, checks: &CheckCounts, recent: Vec<RecentResultRow>) -> (r:
    DashboardSummary)
    ensures
        r.total_endpoints == endpoints.total,
        r.online_endpoints == endpoints.online,
        r.offline_endpoints == endpoints.offline,
        r.warning_endpoints == endpoints.warning,
        r.critical_endpoints == endpoints.critical,
        r.total_checks == checks.total,
        r.enabled_checks == checks.enabled,
        r.recent_results@ == recent@.map_values(|row: RecentResultRow| summarized(row)),
{
    let ghost all = recent@;
    let ghost shown = all.map_values(|row: RecentResultRow| summarized(row));
    let mut rows = recent;
    let mut reversed: Vec<RecentCheckResult> = Vec::new();
    while rows.len() > 0
        invariant
            rows@.len() <= all.len(),
            rows@ == all.take(rows@.len() as int),
            shown == all.map_values(|row: RecentResultRow| summarized(row)),
            reversed@.len() == all.len() - rows@.len(),
            forall|k: int|
                0 <= k < reversed@.len() ==> #[trigger] reversed@[k] == shown[all.len() - 1 - k],
        decreases rows.len(),
    {
        let ghost before = rows@;
        let row = rows.pop().unwrap();
        proof {
            assert(rows@ =~= before.drop_last());
            assert(rows@ =~= all.take(rows@.len() as int));
            assert(row == all[rows@.len() as int]);
        }
        reversed.push(summarize(row));
    }
    let mut recent_results: Vec<RecentCheckResult> = Vec::new();
    let ghost turned = reversed@;
    while reversed.len() > 0
        invariant
            turned.len() == all.len(),
            shown.len() == all.len(),
            reversed@.len() <= turned.len(),
            reversed@ == turned.take(reversed@.len() as int),
            recent_results@.len() == turned.len() - reversed@.len(),
            forall|k: int| 0 <= k < turned.len() ==> #[trigger] turned[k] == shown[all.len() - 1 - k],
            forall|k: int|
                0 <= k < recent_results@.len() ==> #[trigger] recent_results@[k] == shown[k],
        decreases reversed.len(),
    {
        let ghost before = reversed@;
        let ghost done = recent_results@;
        let item = reversed.pop().unwrap();
        proof {
            assert(reversed@ =~= before.drop_last());
            assert(reversed@ =~= turned.take(reversed@.len() as int));
            assert(item == turned[reversed@.len() as int]);
        }
        recent_results.push(item);
        proof {
            assert forall|k: int| 0 <= k < recent_results@.len() implies #[trigger] recent_results@[k]
                == shown[k] by {
                if k < done.len() {
                    assert(recent_results@[k] == done[k]);
                }
            }
        }
    }
    proof {
        assert(recent_results@ =~= shown);
    }
    DashboardSummary {
        total_endpoints: endpoints.total,
        online_endpoints: endpoints.online,
        offline_endpoints: endpoints.offline,
        warning_endpoints: endpoints.warning,
        critical_endpoints: endpoints.critical,
        total_checks: checks.total,
        enabled_checks: checks.enabled,
        recent_results,
    }
}

/// A recent result as the dashboard shows it.
#[derive(Debug)]
pub struct RecentResultView {
    pub endpoint_hostname: String,
    pub check_name: String,
    pub status: CheckStatus,
    pub message: Option<String>,
    pub collected_at: String,
}

impl RecentResultView {
    /// The style class under which the dashboard shows the result.
    pub fn status_class(&self) -> (r: &'static str)
        ensures
            r@ == match self.status {
                CheckStatus::Pass => "success"@,
                CheckStatus::Fail => "danger"@,
                CheckStatus::Error => "warning"@,
                CheckStatus::Skipped => "secondary"@,
            },
    {
        self.status.status_class()
    }
}

/// An endpoint as the dashboard shows it.
#[derive(Debug)]
pub struct EndpointView {
    pub id: u128,
    pub hostname: String,
    pub os: String,
    pub agent_version: String,
    pub ip_addresses: String,
    pub last_seen: String,
    pub status: EndpointStatus,
}

/// A text that may be absent, with the empty text for an absent one.
pub open spec fn or_empty(text: Option<Seq<char>>) -> Seq<char> {
    match text {
        Some(t) => t,
        None => Seq::empty(),
    }
}

impl EndpointView {
    /// The style class under which the dashboard shows the endpoint.
    pub fn status_class(&self) -> (r: &'static str)
        ensures
            r@ == match self.status {
                EndpointStatus::Online => "success"@,
                EndpointStatus::Offline => "secondary"@,
                EndpointStatus::Warning => "warning"@,
                EndpointStatus::Critical => "danger"@,
            },
    {
        self.status.status_class()
    }

    /// The endpoint as the dashboard shows it: system and version in one
    /// text, the addresses in one text with commas, and words for what is
    /// not known. `last_seen` is the time at which the endpoint was last
    /// seen, written out, where it was seen at all.
    pub fn from_endpoint(e: Endpoint, last_seen: Option<String>) -> (r: EndpointView)
        ensures
            r.id == e.id,
            r.hostname == e.hostname,
            r.os@ == or_empty(text_of(e.os)) + " "@ + or_empty(text_of(e.os_version)),
            r.agent_version@ == match e.agent_version {
                Some(v) => v@,
                None => "Unknown"@,
            },
            r.ip_addresses@ == joined(texts_of(e.ip_addresses@), ", "@),
            r.last_seen@ == match last_seen {
                Some(t) => t@,
                None => "Never"@,
            },
            r.status == e.status,
    {
        proof {
            reveal_strlit("");
            assert(""@ =~= Seq::<char>::empty());
        }
        let os = join3(
            match &e.os {
                Some(t) => t.as_str(),
                None => "",
            },
            " ",
            match &e.os_version {
                Some(t) => t.as_str(),
                None => "",
            },
        );
        let ip_addresses = join_texts(&e.ip_addresses, ", ");
        EndpointView {
            id: e.id,
            hostname: e.hostname,
            os,
            agent_version: match e.agent_version {
                Some(v) => v,
                None => String::from_str("Unknown"),
            },
            ip_addresses,
            last_seen: match last_seen {
                Some(t) => t,
                None => String::from_str("Never"),
            },
            status: e.status,
        }
    }
}

/// The latest result of a check as the dashboard shows it.
#[derive(Debug)]
pub struct CheckResultView {
    pub check_id: u128,
    pub check_name: String,
    pub status: CheckStatus,
    pub message: Option<String>,
    pub collected_at: String,
}

impl CheckResultView {
    /// The style class under which the dashboard shows the result.
    pub fn status_class(&self) -> (r: &'static str)
        ensures
            r@ == match self.status {
                CheckStatus::Pass => "success"@,
                CheckStatus::Fail => "danger"@,
                CheckStatus::Error => "warning"@,
                CheckStatus::Skipped => "secondary"@,
            },
    {
        self.status.status_class()
    }
}

/// A check definition as the dashboard shows it.
#[derive(Debug)]
pub struct CheckDefView {
    pub id: u128,
    pub name: String,
    pub description: String,
    pub check_type: String,
    pub severity: Severity,
    pub enabled: bool,
    pub updated_at: String,
}

impl CheckDefView {
    /// The style class under which the dashboard shows the severity.
    pub fn severity_class(&self) -> (r: &'static str)
        ensures
            r@ == match self.severity {
                Severity::Info => "info"@,
                Severity::Low => "secondary"@,
                Severity::Medium => "warning"@,
                Severity::High => "danger"@,
                Severity::Critical => "dark"@,
            },
    {
        self.severity.severity_class()
    }
}

/// What the form for a check definition sends.
#[derive(Debug)]
pub struct CheckForm {
    pub name: String,
    pub description: String,
    pub check_type: String,
    pub parameters: String,
    pub severity: String,
    pub enabled: Option<String>,
}

impl CheckForm {
    /// The description, if one was entered.
    pub fn description(&self) -> (r: Option<&str>)
        ensures
            match r {
                Some(text) => self.description@.len() > 0 && text@ == self.description@,
                None => self.description@.len() == 0,
            },
    {
        if self.description.as_str().unicode_len() == 0 {
            None
        } else {
            Some(self.description.as_str())
        }
    }

    /// The severity that was chosen; medium where the choice names none.
    pub fn severity(&self) -> (r: Severity)
        ensures
            r == Severity::named_or_medium(self.severity@),
    {
        Severity::parse_or_medium(self.severity.as_str())
    }

    /// Whether the check was ticked as enabled: the form sends the field
    /// only where it was.
    pub fn is_enabled(&self) -> (r: bool)
        ensures
            r == self.enabled is Some,
    {
        self.enabled.is_some()
    }
}

} // verus!
