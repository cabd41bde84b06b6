//! The messages that agent and server exchange: registration, heartbeat,
//! check distribution and result submission.

use crate::models::{CheckStatus, ProcessInfo, Severity, SoftwareInfo, SystemSnapshot};
use crate::params::ParamValue;
use crate::text::{join2, strip_trailing, without_trailing};
use vstd::prelude::*;
use vstd::string::*;

verus! {

/// Agent registration request.
#[derive(Debug)]
pub struct RegisterRequest {
    pub hostname: String,
    pub os: String,
    pub os_version: String,
    pub agent_version: String,
    pub ip_addresses: Vec<String>,
}

/// Agent registration response.
#[derive(Debug)]
pub struct RegisterResponse {
    pub endpoint_id: u128,
    pub message: String,
}

/// Heartbeat request from agent.
#[derive(Debug)]
pub struct HeartbeatRequest {
    pub endpoint_id: u128,
    pub snapshot: SystemSnapshotData,
}

/// System snapshot data sent in heartbeat.
#[derive(Debug)]
pub struct SystemSnapshotData {
    pub collected_at: i64,
    pub cpu_usage_bits: u32,
    pub memory_total: u64,
    pub memory_used: u64,
    pub disk_total: u64,
    pub disk_used: u64,
    pub processes: Vec<ProcessInfo>,
    pub open_ports: Vec<u16>,
    pub installed_software: Vec<SoftwareInfo>,
}

impl SystemSnapshotData {
    /// The snapshot of the endpoint `endpoint_id` that holds this data.
    pub fn into_snapshot(self, endpoint_id: u128) -> (r: SystemSnapshot)
        ensures
            r.endpoint_id == endpoint_id,
            r.collected_at == self.collected_at,
            r.cpu_usage_bits == self.cpu_usage_bits,
            r.memory_total == self.memory_total,
            r.memory_used == self.memory_used,
            r.disk_total == self.disk_total,
            r.disk_used == self.disk_used,
            r.processes == self.processes,
            r.open_ports == self.open_ports,
            r.installed_software == self.installed_software,
    {
        SystemSnapshot {
            endpoint_id,
            collected_at: self.collected_at,
            cpu_usage_bits: self.cpu_usage_bits,
            memory_total: self.memory_total,
            memory_used: self.memory_used,
            disk_total: self.disk_total,
            disk_used: self.disk_used,
            processes: self.processes,
            open_ports: self.open_ports,
            installed_software: self.installed_software,
        }
    }
}

/// Heartbeat response.
#[derive(Debug)]
pub struct HeartbeatResponse {
    pub status: String,
    pub server_time: i64,
}

/// Check definition sent to agent: the definition without its description
/// and its dates.
#[derive(Debug)]
pub struct AgentCheckDefinition {
    pub id: u128,
    pub name: String,
    pub check_type: String,
    pub parameters: ParamValue,
    pub severity: Severity,
}

/// Response containing check definitions for agent.
#[derive(Debug)]
pub struct ChecksResponse {
    pub checks: Vec<AgentCheckDefinition>,
}

/// Single check result from agent.
#[derive(Debug)]
pub struct AgentCheckResult {
    pub check_id: u128,
    pub status: CheckStatus,
    pub message: Option<String>,
    pub collected_at: i64,
}

/// Request to submit check results.
#[derive(Debug)]
pub struct SubmitResultsRequest {
    pub endpoint_id: u128,
    pub results: Vec<AgentCheckResult>,
}

/// Response after submitting results.
#[derive(Debug)]
pub struct SubmitResultsResponse {
    pub accepted: usize,
    pub message: String,
}

/// Error response from API.
#[derive(Debug)]
pub struct ErrorResponse {
    pub error: String,
    pub message: String,
}

impl ErrorResponse {
    pub fn new(error: String, message: String) -> (r: ErrorResponse)
        ensures
            r.error == error,
            r.message == message,
    {
        ErrorResponse { error, message }
    }
}

/// Dashboard summary data.
#[derive(Debug)]
pub struct DashboardSummary {
    pub total_endpoints: i64,
    pub online_endpoints: i64,
    pub offline_endpoints: i64,
    pub warning_endpoints: i64,
    pub critical_endpoints: i64,
    pub total_checks: i64,
    pub enabled_checks: i64,
    pub recent_results: Vec<RecentCheckResult>,
}

/// Recent check result for dashboard.
#[derive(Debug)]
pub struct RecentCheckResult {
    pub endpoint_hostname: String,
    pub check_name: String,
    pub status: CheckStatus,
    pub message: Option<String>,
    pub collected_at: i64,
}

/// The name of the header that carries the shared secret.
pub const AGENT_SECRET_HEADER: &'static str = "X-Agent-Secret";

/// The four calls that an agent makes.
#[derive(Debug, Clone, Copy, PartialEq, Eq, Structural)]
pub enum AgentRoute {
    Register,
    Heartbeat,
    Checks,
    Results,
}

impl AgentRoute {
    /// The path of the call on the server.
    pub open spec fn path_of(self) -> Seq<char> {
        match self {
            AgentRoute::Register => "/api/agent/register"@,
            AgentRoute::Heartbeat => "/api/agent/heartbeat"@,
            AgentRoute::Checks => "/api/agent/checks"@,
            AgentRoute::Results => "/api/agent/results"@,
        }
    }

    pub fn path(&self) -> (r: &'static str)
        ensures
            r@ == self.path_of(),
    {
        match self {
            AgentRoute::Register => "/api/agent/register",
            AgentRoute::Heartbeat => "/api/agent/heartbeat",
            AgentRoute::Checks => "/api/agent/checks",
            AgentRoute::Results => "/api/agent/results",
        }
    }

    /// How the failure of the call begins when it is reported.
    pub open spec fn failure_of(self) -> Seq<char> {
        match self {
            AgentRoute::Register => "Registration failed"@,
            AgentRoute::Heartbeat => "Heartbeat failed"@,
            AgentRoute::Checks => "Failed to get checks"@,
            AgentRoute::Results => "Failed to submit results"@,
        }
    }

    /// The report of a call that the server did not answer with success:
    /// what failed, the status of the answer, and its body.
    pub fn failure(&self, status: &str, body: &str) -> (r: String)
        ensures
            r@ == self.failure_of() + ": "@ + status@ + " - "@ + body@,
    {
        let mut report = String::from_str(
            match self {
                AgentRoute::Register => "Registration failed",
                AgentRoute::Heartbeat => "Heartbeat failed",
                AgentRoute::Checks => "Failed to get checks",
                AgentRoute::Results => "Failed to submit results",
            },
        );
        report.append(": ");
        report.append(status);
        report.append(" - ");
        report.append(body);
        report
    }

    /// The address of the call on the server at `base_url`: the base without
    /// its trailing slashes, then the path.
    pub fn url(&self, base_url: &str) -> (r: String)
        ensures
            r@ == without_trailing(base_url@, '/') + self.path_of(),
    {
        join2(strip_trailing(base_url, '/'), self.path())
    }
}

} // verus!
