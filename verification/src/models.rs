//! The data model: the states an endpoint and a check can be in, and the
//! records kept of them.
//!
//! Identifiers are 128-bit numbers. Points in time are milliseconds since the
//! Unix epoch. A processor load is carried as the bit pattern of the
//! single-precision number that measured it.

use crate::text::{join2, lowercase};
use vstd::prelude::*;
use vstd::string::*;

verus! {

/// Status of an endpoint.
#[derive(Debug, Clone, Copy, PartialEq, Eq, Structural)]
pub enum EndpointStatus {
    Online,
    Offline,
    Warning,
    Critical,
}

impl EndpointStatus {
    /// The name under which the status is stored and sent.
    pub open spec fn name(self) -> Seq<char> {
        match self {
            EndpointStatus::Online => "online"@,
            EndpointStatus::Offline => "offline"@,
            EndpointStatus::Warning => "warning"@,
            EndpointStatus::Critical => "critical"@,
        }
    }

    /// The status that a name stands for, whatever its case.
    pub open spec fn named(s: Seq<char>) -> Option<EndpointStatus> {
        if lowercase(s) == "online"@ {
            Some(EndpointStatus::Online)
        } else if lowercase(s) == "offline"@ {
            Some(EndpointStatus::Offline)
        } else if lowercase(s) == "warning"@ {
            Some(EndpointStatus::Warning)
        } else if lowercase(s) == "critical"@ {
            Some(EndpointStatus::Critical)
        } else {
            None
        }
    }

    pub fn as_str(&self) -> (r: &'static str)
        ensures
            r@ == self.name(),
    {
        match self {
            EndpointStatus::Online => "online",
            EndpointStatus::Offline => "offline",
            EndpointStatus::Warning => "warning",
            EndpointStatus::Critical => "critical",
        }
    }

    pub fn to_string(&self) -> (r: String)
        ensures
            r@ == self.name(),
    {
        String::from_str(self.as_str())
    }

    /// The style class under which the dashboard shows the status.
    pub fn status_class(&self) -> (r: &'static str)
        ensures
            r@ == match *self {
                EndpointStatus::Online => "success"@,
                EndpointStatus::Offline => "secondary"@,
                EndpointStatus::Warning => "warning"@,
                EndpointStatus::Critical => "danger"@,
            },
    {
        match self {
            EndpointStatus::Online => "success",
            EndpointStatus::Offline => "secondary",
            EndpointStatus::Warning => "warning",
            EndpointStatus::Critical => "danger",
        }
    }

    pub fn from_str(s: &str) -> (r: Result<EndpointStatus, String>)
        ensures
            match r {
                Ok(status) => EndpointStatus::named(s@) == Some(status),
                Err(e) => EndpointStatus::named(s@) is None && e@ == "Unknown endpoint status: "@
                    + s@,
            },
    {
        let lower = s.to_lowercase();
        if lower.as_str().eq("online") {
            Ok(EndpointStatus::Online)
        } else if lower.as_str().eq("offline") {
            Ok(EndpointStatus::Offline)
        } else if lower.as_str().eq("warning") {
            Ok(EndpointStatus::Warning)
        } else if lower.as_str().eq("critical") {
            Ok(EndpointStatus::Critical)
        } else {
            Err(join2("Unknown endpoint status: ", s))
        }
    }
}

impl Default for EndpointStatus {
    fn default() -> (r: EndpointStatus)
        ensures
            r == EndpointStatus::Offline,
    {
        EndpointStatus::Offline
    }
}

/// Severity level for checks.
#[derive(Debug, Clone, Copy, PartialEq, Eq, Structural)]
pub enum Severity {
    Info,
    Low,
    Medium,
    High,
    Critical,
}

impl Severity {
    /// The name under which the severity is stored and sent.
    pub open spec fn name(self) -> Seq<char> {
        match self {
            Severity::Info => "info"@,
            Severity::Low => "low"@,
            Severity::Medium => "medium"@,
            Severity::High => "high"@,
            Severity::Critical => "critical"@,
        }
    }

    /// The severity that a name stands for, whatever its case.
    pub open spec fn named(s: Seq<char>) -> Option<Severity> {
        if lowercase(s) == "info"@ {
            Some(Severity::Info)
        } else if lowercase(s) == "low"@ {
            Some(Severity::Low)
        } else if lowercase(s) == "medium"@ {
            Some(Severity::Medium)
        } else if lowercase(s) == "high"@ {
            Some(Severity::High)
        } else if lowercase(s) == "critical"@ {
            Some(Severity::Critical)
        } else {
            None
        }
    }

    /// The severity that a stored name stands for; `Medium` where it stands
    /// for none.
    pub open spec fn named_or_medium(s: Seq<char>) -> Severity {
        match Severity::named(s) {
            Some(severity) => severity,
            None => Severity::Medium,
        }
    }

    pub fn as_str(&self) -> (r: &'static str)
        ensures
            r@ == self.name(),
    {
        match self {
            Severity::Info => "info",
            Severity::Low => "low",
            Severity::Medium => "medium",
            Severity::High => "high",
            Severity::Critical => "critical",
        }
    }

    pub fn to_string(&self) -> (r: String)
        ensures
            r@ == self.name(),
    {
        String::from_str(self.as_str())
    }

    pub fn from_str(s: &str) -> (r: Result<Severity, String>)
        ensures
            match r {
                Ok(severity) => Severity::named(s@) == Some(severity),
                Err(e) => Severity::named(s@) is None && e@ == "Unknown severity: "@ + s@,
            },
    {
        let lower = s.to_lowercase();
        if lower.as_str().eq("info") {
            Ok(Severity::Info)
        } else if lower.as_str().eq("low") {
            Ok(Severity::Low)
        } else if lower.as_str().eq("medium") {
            Ok(Severity::Medium)
        } else if lower.as_str().eq("high") {
            Ok(Severity::High)
        } else if lower.as_str().eq("critical") {
            Ok(Severity::Critical)
        } else {
            Err(join2("Unknown severity: ", s))
        }
    }

    /// The severity that a stored name stands for, with `Medium` for a name
    /// that stands for none.
    pub fn parse_or_medium(s: &str) -> (r: Severity)
        ensures
            r == Severity::named_or_medium(s@),
    {
        match Severity::from_str(s) {
            Ok(severity) => severity,
            Err(_) => Severity::Medium,
        }
    }

    /// The style class under which the dashboard shows the severity.
    pub fn severity_class(&self) -> (r: &'static str)
        ensures
            r@ == match *self {
                Severity::Info => "info"@,
                Severity::Low => "secondary"@,
                Severity::Medium => "warning"@,
                Severity::High => "danger"@,
                Severity::Critical => "dark"@,
            },
    {
        match self {
            Severity::Info => "info",
            Severity::Low => "secondary",
            Severity::Medium => "warning",
            Severity::High => "danger",
            Severity::Critical => "dark",
        }
    }
}

impl Default for Severity {
    fn default() -> (r: Severity)
        ensures
            r == Severity::Medium,
    {
        Severity::Medium
    }
}

/// Status of a check result.
#[derive(Debug, Clone, Copy, PartialEq, Eq, Structural)]
pub enum CheckStatus {
    Pass,
    Fail,
    Error,
    Skipped,
}

impl CheckStatus {
    /// The name under which the status is stored and sent.
    pub open spec fn name(self) -> Seq<char> {
        match self {
            CheckStatus::Pass => "pass"@,
            CheckStatus::Fail => "fail"@,
            CheckStatus::Error => "error"@,
            CheckStatus::Skipped => "skipped"@,
        }
    }

    /// The status that a name stands for, whatever its case.
    pub open spec fn named(s: Seq<char>) -> Option<CheckStatus> {
        if lowercase(s) == "pass"@ {
            Some(CheckStatus::Pass)
        } else if lowercase(s) == "fail"@ {
            Some(CheckStatus::Fail)
        } else if lowercase(s) == "error"@ {
            Some(CheckStatus::Error)
        } else if lowercase(s) == "skipped"@ {
            Some(CheckStatus::Skipped)
        } else {
            None
        }
    }

    /// The status that a stored name stands for; `Error` where it stands for
    /// none.
    pub open spec fn named_or_error(s: Seq<char>) -> CheckStatus {
        match CheckStatus::named(s) {
            Some(status) => status,
            None => CheckStatus::Error,
        }
    }

    pub fn as_str(&self) -> (r: &'static str)
        ensures
            r@ == self.name(),
    {
        match self {
            CheckStatus::Pass => "pass",
            CheckStatus::Fail => "fail",
            CheckStatus::Error => "error",
            CheckStatus::Skipped => "skipped",
        }
    }

    pub fn to_string(&self) -> (r: String)
        ensures
            r@ == self.name(),
    {
        String::from_str(self.as_str())
    }

    pub fn from_str(s: &str) -> (r: Result<CheckStatus, String>)
        ensures
            match r {
                Ok(status) => CheckStatus::named(s@) == Some(status),
                Err(e) => CheckStatus::named(s@) is None && e@ == "Unknown check status: "@ + s@,
            },
    {
        let lower = s.to_lowercase();
        if lower.as_str().eq("pass") {
            Ok(CheckStatus::Pass)
        } else if lower.as_str().eq("fail") {
            Ok(CheckStatus::Fail)
        } else if lower.as_str().eq("error") {
            Ok(CheckStatus::Error)
        } else if lower.as_str().eq("skipped") {
            Ok(CheckStatus::Skipped)
        } else {
            Err(join2("Unknown check status: ", s))
        }
    }

    /// The status that a stored name stands for, with `Error` for a name that
    /// stands for none.
    pub fn parse_or_error(s: &str) -> (r: CheckStatus)
        ensures
            r == CheckStatus::named_or_error(s@),
    {
        match CheckStatus::from_str(s) {
            Ok(status) => status,
            Err(_) => CheckStatus::Error,
        }
    }

    /// The style class under which the dashboard shows the status.
    pub fn status_class(&self) -> (r: &'static str)
        ensures
            r@ == match *self {
                CheckStatus::Pass => "success"@,
                CheckStatus::Fail => "danger"@,
                CheckStatus::Error => "warning"@,
                CheckStatus::Skipped => "secondary"@,
            },
    {
        match self {
            CheckStatus::Pass => "success",
            CheckStatus::Fail => "danger",
            CheckStatus::Error => "warning",
            CheckStatus::Skipped => "secondary",
        }
    }
}

/// Admin user role.
#[derive(Debug, Clone, Copy, PartialEq, Eq, Structural)]
pub enum AdminRole {
    Admin,
    Viewer,
}

impl AdminRole {
    /// The name under which the role is stored.
    pub open spec fn name(self) -> Seq<char> {
        match self {
            AdminRole::Admin => "admin"@,
            AdminRole::Viewer => "viewer"@,
        }
    }

    /// The role that a name stands for, whatever its case.
    pub open spec fn named(s: Seq<char>) -> Option<AdminRole> {
        if lowercase(s) == "admin"@ {
            Some(AdminRole::Admin)
        } else if lowercase(s) == "viewer"@ {
            Some(AdminRole::Viewer)
        } else {
            None
        }
    }

    pub fn as_str(&self) -> (r: &'static str)
        ensures
            r@ == self.name(),
    {
        match self {
            AdminRole::Admin => "admin",
            AdminRole::Viewer => "viewer",
        }
    }

    pub fn to_string(&self) -> (r: String)
        ensures
            r@ == self.name(),
    {
        String::from_str(self.as_str())
    }

    pub fn from_str(s: &str) -> (r: Result<AdminRole, String>)
        ensures
            match r {
                Ok(role) => AdminRole::named(s@) == Some(role),
                Err(e) => AdminRole::named(s@) is None && e@ == "Unknown role: "@ + s@,
            },
    {
        let lower = s.to_lowercase();
        if lower.as_str().eq("admin") {
            Ok(AdminRole::Admin)
        } else if lower.as_str().eq("viewer") {
            Ok(AdminRole::Viewer)
        } else {
            Err(join2("Unknown role: ", s))
        }
    }
}

impl Default for AdminRole {
    fn default() -> (r: AdminRole)
        ensures
            r == AdminRole::Viewer,
    {
        AdminRole::Viewer
    }
}

/// Endpoint information.
#[derive(Debug)]
pub struct Endpoint {
    pub id: u128,
    pub hostname: String,
    pub os: Option<String>,
    pub os_version: Option<String>,
    pub agent_version: Option<String>,
    pub ip_addresses: Vec<String>,
    pub last_seen: Option<i64>,
    pub status: EndpointStatus,
    pub created_at: i64,
}

/// Result of a check execution, as the server keeps it.
#[derive(Debug)]
pub struct CheckResult {
    pub id: u128,
    pub endpoint_id: u128,
    pub check_id: u128,
    pub status: CheckStatus,
    pub message: Option<String>,
    pub collected_at: i64,
    pub created_at: i64,
}

/// Information about a running process.
#[derive(Debug)]
pub struct ProcessInfo {
    pub pid: u32,
    pub name: String,
    pub cpu_usage_bits: u32,
    pub memory_bytes: u64,
}

/// Information about installed software.
#[derive(Debug)]
pub struct SoftwareInfo {
    pub name: String,
    pub version: Option<String>,
    pub publisher: Option<String>,
}

/// System snapshot collected by an agent.
#[derive(Debug)]
pub struct SystemSnapshot {
    pub endpoint_id: u128,
    pub collected_at: i64,
    pub cpu_usage_bits: u32,
    pub memory_total: u64,
    pub memory_used: u64,
    pub disk_total: u64,
    pub disk_used: u64,
    pub processes: Vec<ProcessInfo>,
    pub open_ports: Vec<u16>,
    pub installed_software: Vec<SoftwareInfo>,
}

/// Admin user for web UI access.
#[derive(Debug)]
pub struct AdminUser {
    pub id: u128,
    pub username: String,
    pub password_hash: String,
    pub role: AdminRole,
    pub created_at: i64,
}

} // verus!
