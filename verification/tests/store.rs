use endpoint_assessment::admin::{
    default_limit, deletion, get_check_counts, get_summary, summarize, CheckCounts, CheckDefView,
    CheckDefinition, CheckForm, CheckResultView, Deleted, EndpointView, RecentResultRow,
    RecentResultView, ResultSelection, ResultsQuery,
};
use endpoint_assessment::checks::CheckType;
use endpoint_assessment::fleet::EndpointCounts;
use endpoint_assessment::models::{
    AdminRole, CheckResult, CheckStatus, Endpoint, EndpointStatus, Severity, SystemSnapshot,
};
use endpoint_assessment::params::ParamValue;
use endpoint_assessment::server::{ApiStatus, CheckDefinitionRow};
use endpoint_assessment::store::{
    amount_from_column, cleanup_old_snapshots, column_from_amount,
    get_latest_results_for_endpoint, get_result_stats, EndpointRow, SnapshotRow, UserRow,
};
use endpoint_assessment::text::{
    counts_as_white_space, join2, join3, join_texts, leading_chars,
};

const DAY: i64 = 86_400_000;

fn snapshot(collected_at: i64) -> SystemSnapshot {
    SystemSnapshot {
        endpoint_id: 1,
        collected_at,
        cpu_usage_bits: 0,
        memory_total: 0,
        memory_used: 0,
        disk_total: 0,
        disk_used: 0,
        processes: vec![],
        open_ports: vec![],
        installed_software: vec![],
    }
}

fn logged(endpoint_id: u128, check_id: u128, status: CheckStatus, at: i64) -> CheckResult {
    CheckResult {
        id: 0,
        endpoint_id,
        check_id,
        status,
        message: None,
        collected_at: at,
        created_at: at,
    }
}

fn definition(name: &str) -> CheckDefinition {
    CheckDefinition {
        id: 1,
        name: name.to_string(),
        description: None,
        check_type: CheckType::PortOpen { port: 22 },
        severity: Severity::High,
        enabled: true,
        created_at: 0,
        updated_at: 0,
    }
}

fn stored_check(enabled: bool) -> CheckDefinitionRow {
    CheckDefinitionRow {
        id: 1,
        name: "n".to_string(),
        description: None,
        check_type: "port_open".to_string(),
        parameters: ParamValue::Null,
        severity: "low".to_string(),
        enabled,
        created_at: 0,
        updated_at: 0,
    }
}

#[test]
fn endpoint_rows_with_empty_columns_get_defaults() {
    let row = EndpointRow {
        id: 5,
        hostname: "box".to_string(),
        os: None,
        os_version: Some("1".to_string()),
        agent_version: None,
        ip_addresses: None,
        last_seen: None,
        status: None,
        created_at: None,
    };
    let e = row.into_endpoint(777);
    assert_eq!(e.id, 5);
    assert_eq!(e.hostname, "box");
    assert_eq!(e.os, None);
    assert_eq!(e.os_version.as_deref(), Some("1"));
    assert!(e.ip_addresses.is_empty());
    assert_eq!(e.last_seen, None);
    assert_eq!(e.status, EndpointStatus::Offline);
    assert_eq!(e.created_at, 777);
}

#[test]
fn endpoint_rows_keep_what_they_hold() {
    let row = EndpointRow {
        id: 5,
        hostname: "box".to_string(),
        os: Some("Linux".to_string()),
        os_version: None,
        agent_version: Some("0.1".to_string()),
        ip_addresses: Some(vec!["10.0.0.1".to_string()]),
        last_seen: Some(3),
        status: Some("WARNING".to_string()),
        created_at: Some(2),
    };
    let e = row.into_endpoint(777);
    assert_eq!(e.status, EndpointStatus::Warning);
    assert_eq!(e.ip_addresses, vec!["10.0.0.1".to_string()]);
    assert_eq!(e.last_seen, Some(3));
    assert_eq!(e.created_at, 2);
    let odd = EndpointRow {
        id: 5,
        hostname: "box".to_string(),
        os: None,
        os_version: None,
        agent_version: None,
        ip_addresses: None,
        last_seen: None,
        status: Some("asleep".to_string()),
        created_at: None,
    };
    assert_eq!(odd.into_endpoint(0).status, EndpointStatus::Offline);
}

#[test]
fn user_rows_default_to_viewer() {
    let row = UserRow {
        id: 1,
        username: "ann".to_string(),
        password_hash: "h".to_string(),
        role: Some("Admin".to_string()),
        created_at: Some(4),
    };
    let u = row.into_user(9);
    assert_eq!(u.role, AdminRole::Admin);
    assert_eq!(u.created_at, 4);
    assert_eq!(u.username, "ann");
    assert_eq!(u.password_hash, "h");
    let row = UserRow {
        id: 1,
        username: "bob".to_string(),
        password_hash: "h".to_string(),
        role: Some("root".to_string()),
        created_at: None,
    };
    let u = row.into_user(9);
    assert_eq!(u.role, AdminRole::Viewer);
    assert_eq!(u.created_at, 9);
}

#[test]
fn old_snapshots_are_removed() {
    let now = 10 * DAY;
    let mut snapshots = vec![
        snapshot(2 * DAY),
        snapshot(3 * DAY),
        snapshot(3 * DAY - 1),
        snapshot(9 * DAY),
        snapshot(0),
    ];
    let removed = cleanup_old_snapshots(&mut snapshots, now, 7);
    assert_eq!(removed, 3);
    let kept: Vec<i64> = snapshots.iter().map(|s| s.collected_at).collect();
    assert_eq!(kept, vec![3 * DAY, 9 * DAY]);
    assert_eq!(cleanup_old_snapshots(&mut snapshots, now, 7), 0);
    assert_eq!(cleanup_old_snapshots(&mut snapshots, i64::MAX, i64::MIN), 2);
    assert!(snapshots.is_empty());
}

#[test]
fn statistics_cover_the_last_day() {
    let now = 5 * DAY;
    let results = vec![
        logged(1, 1, CheckStatus::Pass, now),
        logged(1, 2, CheckStatus::Fail, now - DAY + 1),
        logged(1, 3, CheckStatus::Fail, now - DAY),
        logged(2, 1, CheckStatus::Error, now - 5),
        logged(2, 2, CheckStatus::Skipped, now - 5),
        logged(2, 3, CheckStatus::Pass, 0),
    ];
    let s = get_result_stats(&results, now);
    assert_eq!((s.total, s.passed, s.failed, s.errors), (4, 1, 1, 1));
    let s = get_result_stats(&vec![], now);
    assert_eq!((s.total, s.passed, s.failed, s.errors), (0, 0, 0, 0));
}

#[test]
fn latest_results_hold_one_place_per_check() {
    let results = vec![
        logged(1, 30, CheckStatus::Pass, 10),
        logged(2, 30, CheckStatus::Fail, 99),
        logged(1, 10, CheckStatus::Fail, 20),
        logged(1, 30, CheckStatus::Fail, 50),
        logged(1, 10, CheckStatus::Pass, 5),
        logged(1, 20, CheckStatus::Error, 1),
        logged(1, 30, CheckStatus::Pass, 40),
    ];
    let latest = get_latest_results_for_endpoint(&results, 1);
    assert_eq!(latest, vec![2, 5, 3]);
    let latest = get_latest_results_for_endpoint(&results, 2);
    assert_eq!(latest, vec![1]);
    assert!(get_latest_results_for_endpoint(&results, 3).is_empty());
    assert!(get_latest_results_for_endpoint(&vec![], 1).is_empty());
}

#[test]
fn latest_results_with_equal_times_pick_one() {
    let results = vec![logged(1, 7, CheckStatus::Pass, 10), logged(1, 7, CheckStatus::Fail, 10)];
    let latest = get_latest_results_for_endpoint(&results, 1);
    assert_eq!(latest.len(), 1);
    assert!(latest[0] == 0 || latest[0] == 1);
}

#[test]
fn definition_names_have_1_to_255_characters() {
    assert!(!definition("").validate());
    assert!(definition("a").validate());
    assert!(definition(&"é".repeat(255)).validate());
    assert!(!definition(&"a".repeat(256)).validate());
}

#[test]
fn deletion_answers() {
    let ok = deletion(Deleted::Endpoint, true).unwrap();
    assert!(ok.success);
    assert_eq!(ok.message, "Endpoint deleted");
    assert_eq!(deletion(Deleted::Check, true).unwrap().message, "Check deleted");
    let e = deletion(Deleted::Endpoint, false).unwrap_err();
    assert_eq!(e.status, ApiStatus::NotFound);
    assert_eq!(e.message, "Endpoint not found");
    assert_eq!(deletion(Deleted::Check, false).unwrap_err().message, "Check not found");
}

#[test]
fn check_counts() {
    let rows = vec![stored_check(true), stored_check(false), stored_check(true)];
    let c = get_check_counts(&rows);
    assert_eq!((c.total, c.enabled), (3, 2));
    let c = get_check_counts(&vec![]);
    assert_eq!((c.total, c.enabled), (0, 0));
}

#[test]
fn a_query_selects_by_endpoint_first() {
    let q = ResultsQuery { endpoint_id: Some(1), check_id: Some(2), limit: default_limit() };
    assert_eq!(q.selection(), ResultSelection::ForEndpoint(1));
    let q = ResultsQuery { endpoint_id: None, check_id: Some(2), limit: 5 };
    assert_eq!(q.selection(), ResultSelection::ForCheck(2));
    let q = ResultsQuery { endpoint_id: None, check_id: None, limit: 5 };
    assert_eq!(q.selection(), ResultSelection::Recent);
    assert_eq!(default_limit(), 100);
}

#[test]
fn summary_holds_counts_and_recent_results() {
    let endpoints = EndpointCounts { total: 4, online: 1, offline: 1, warning: 1, critical: 1 };
    let checks = CheckCounts { total: 3, enabled: 2 };
    let recent = vec![
        RecentResultRow {
            id: 1,
            endpoint_hostname: "a".to_string(),
            check_name: "first".to_string(),
            status: "pass".to_string(),
            message: Some("m".to_string()),
            collected_at: 9,
        },
        RecentResultRow {
            id: 2,
            endpoint_hostname: "b".to_string(),
            check_name: "second".to_string(),
            status: "???".to_string(),
            message: None,
            collected_at: 8,
        },
    ];
    let s = get_summary(&endpoints, &checks, recent);
    assert_eq!(s.total_endpoints, 4);
    assert_eq!(s.online_endpoints, 1);
    assert_eq!(s.offline_endpoints, 1);
    assert_eq!(s.warning_endpoints, 1);
    assert_eq!(s.critical_endpoints, 1);
    assert_eq!(s.total_checks, 3);
    assert_eq!(s.enabled_checks, 2);
    assert_eq!(s.recent_results.len(), 2);
    assert_eq!(s.recent_results[0].check_name, "first");
    assert_eq!(s.recent_results[0].status, CheckStatus::Pass);
    assert_eq!(s.recent_results[0].message.as_deref(), Some("m"));
    assert_eq!(s.recent_results[1].endpoint_hostname, "b");
    assert_eq!(s.recent_results[1].status, CheckStatus::Error);
    assert_eq!(s.recent_results[1].collected_at, 8);
    let one = summarize(RecentResultRow {
        id: 3,
        endpoint_hostname: "c".to_string(),
        check_name: "third".to_string(),
        status: "FAIL".to_string(),
        message: None,
        collected_at: 7,
    });
    assert_eq!(one.status, CheckStatus::Fail);
}

#[test]
fn recent_result_view_status_classes() {
    let view = |status| RecentResultView {
        endpoint_hostname: String::new(),
        check_name: String::new(),
        status,
        message: None,
        collected_at: String::new(),
    };
    assert_eq!(view(CheckStatus::Pass).status_class(), "success");
    assert_eq!(view(CheckStatus::Fail).status_class(), "danger");
    assert_eq!(view(CheckStatus::Error).status_class(), "warning");
    assert_eq!(view(CheckStatus::Skipped).status_class(), "secondary");
}

#[test]
fn check_form_fields() {
    let mut form = CheckForm {
        name: "n".to_string(),
        description: String::new(),
        check_type: "port_open".to_string(),
        parameters: "{}".to_string(),
        severity: "nonsense".to_string(),
        enabled: None,
    };
    assert_eq!(form.description(), None);
    assert_eq!(form.severity(), Severity::Medium);
    assert!(!form.is_enabled());
    form.description = "what it does".to_string();
    form.severity = "Critical".to_string();
    form.enabled = Some("on".to_string());
    assert_eq!(form.description(), Some("what it does"));
    assert_eq!(form.severity(), Severity::Critical);
    assert!(form.is_enabled());
}

#[test]
fn amounts_come_back_from_the_store() {
    for n in [0u64, 1, 4096, i64::MAX as u64, i64::MAX as u64 + 1, u64::MAX - 1, u64::MAX] {
        assert_eq!(amount_from_column(Some(column_from_amount(n))), n);
    }
    assert_eq!(column_from_amount(u64::MAX), -1);
    assert_eq!(column_from_amount(i64::MAX as u64 + 1), i64::MIN);
    assert_eq!(amount_from_column(Some(-1)), u64::MAX);
    assert_eq!(amount_from_column(Some(i64::MIN)), 1u64 << 63);
    assert_eq!(amount_from_column(None), 0);
}

#[test]
fn snapshot_rows_with_empty_measures_stand_for_nothing() {
    let row = SnapshotRow {
        id: 1,
        endpoint_id: 2,
        cpu_usage_bits: None,
        memory_total: None,
        memory_used: Some(5),
        disk_total: Some(-1),
        disk_used: None,
        processes: None,
        open_ports: Some(vec![22, 80]),
        installed_software: None,
        collected_at: 9,
    };
    let s = row.into_snapshot();
    assert_eq!(s.endpoint_id, 2);
    assert_eq!(s.collected_at, 9);
    assert_eq!(f32::from_bits(s.cpu_usage_bits), 0.0);
    assert_eq!(s.memory_total, 0);
    assert_eq!(s.memory_used, 5);
    assert_eq!(s.disk_total, u64::MAX);
    assert_eq!(s.disk_used, 0);
    assert!(s.processes.is_empty());
    assert_eq!(s.open_ports, vec![22, 80]);
    assert!(s.installed_software.is_empty());
}

#[test]
fn endpoints_as_the_dashboard_shows_them() {
    let e = Endpoint {
        id: 3,
        hostname: "box".to_string(),
        os: Some("Linux".to_string()),
        os_version: Some("6.1".to_string()),
        agent_version: None,
        ip_addresses: vec!["10.0.0.1".to_string(), "10.0.0.2".to_string()],
        last_seen: None,
        status: EndpointStatus::Warning,
        created_at: 0,
    };
    let v = EndpointView::from_endpoint(e, None);
    assert_eq!(v.id, 3);
    assert_eq!(v.hostname, "box");
    assert_eq!(v.os, "Linux 6.1");
    assert_eq!(v.agent_version, "Unknown");
    assert_eq!(v.ip_addresses, "10.0.0.1, 10.0.0.2");
    assert_eq!(v.last_seen, "Never");
    assert_eq!(v.status_class(), "warning");
    let bare = Endpoint {
        id: 4,
        hostname: "bare".to_string(),
        os: None,
        os_version: None,
        agent_version: Some("0.1".to_string()),
        ip_addresses: vec![],
        last_seen: Some(1),
        status: EndpointStatus::Online,
        created_at: 0,
    };
    let v = EndpointView::from_endpoint(bare, Some("1970-01-01 00:00:00 UTC".to_string()));
    assert_eq!(v.os, " ");
    assert_eq!(v.agent_version, "0.1");
    assert_eq!(v.ip_addresses, "");
    assert_eq!(v.last_seen, "1970-01-01 00:00:00 UTC");
    assert_eq!(v.status_class(), "success");
}

#[test]
fn dashboard_rows_have_style_classes() {
    let result = CheckResultView {
        check_id: 1,
        check_name: "n".to_string(),
        status: CheckStatus::Skipped,
        message: None,
        collected_at: String::new(),
    };
    assert_eq!(result.status_class(), "secondary");
    let definition = CheckDefView {
        id: 1,
        name: "n".to_string(),
        description: String::new(),
        check_type: "port_open".to_string(),
        severity: Severity::Critical,
        enabled: true,
        updated_at: String::new(),
    };
    assert_eq!(definition.severity_class(), "dark");
}

#[test]
fn texts_are_joined_and_cut() {
    assert_eq!(join2("a", "b"), "ab");
    assert_eq!(join3("a", "", "c"), "ac");
    let list = vec!["x".to_string(), "yy".to_string(), "".to_string()];
    assert_eq!(join_texts(&list, "-"), "x-yy-");
    assert_eq!(join_texts(&vec!["one".to_string()], ", "), "one");
    assert_eq!(join_texts(&vec![], ", "), "");
    assert_eq!(leading_chars("häß", 2), "hä");
    assert_eq!(leading_chars("abc", 3), "abc");
    assert_eq!(leading_chars("abc", 0), "");
    assert_eq!(leading_chars("", 5), "");
}

#[test]
fn white_space_is_what_the_standard_library_trims() {
    for code in 0..=0x10FFFFu32 {
        if let Some(c) = char::from_u32(code) {
            assert_eq!(counts_as_white_space(c), c.is_whitespace(), "U+{:04X}", code);
        }
    }
}
