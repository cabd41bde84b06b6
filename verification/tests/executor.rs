use endpoint_assessment::checks::{CheckType, CheckTypeId};
use endpoint_assessment::executor::{
    command_output_verdict, config_setting_verdict, content_verdict, file_content_verdict,
    file_exists_verdict, lowered_process_verdict, output_verdict, parse_registry_path,
    port_open_verdict, process_running_verdict, registry_key_verdict, setting_value_verdict,
    setting_verdict, CheckExecutionResult, CheckExecutor, CommandRun, LoweredName, Observation,
    Plan, Probe, RegistryHive, RegistryReading,
};
use endpoint_assessment::models::{CheckStatus, Severity};
use endpoint_assessment::params::{ParamField, ParamNumber, ParamValue};
use endpoint_assessment::protocol::AgentCheckDefinition;

fn text(s: &str) -> ParamValue {
    ParamValue::Text(s.to_string())
}

fn object(fields: Vec<(&str, ParamValue)>) -> ParamValue {
    ParamValue::Object(
        fields
            .into_iter()
            .map(|(name, value)| ParamField { name: name.to_string(), value })
            .collect(),
    )
}

fn check(kind: &str, parameters: ParamValue) -> AgentCheckDefinition {
    AgentCheckDefinition {
        id: 1,
        name: "check".to_string(),
        check_type: kind.to_string(),
        parameters,
        severity: Severity::Medium,
    }
}

fn message(r: &CheckExecutionResult) -> &str {
    r.message.as_deref().unwrap_or("")
}

#[test]
fn result_constructors_set_status_and_message() {
    let p = CheckExecutionResult::pass(None);
    assert_eq!(p.status, CheckStatus::Pass);
    assert_eq!(p.message, None);
    let p = CheckExecutionResult::pass(Some("fine".to_string()));
    assert_eq!(p.message.as_deref(), Some("fine"));
    let f = CheckExecutionResult::fail("bad".to_string());
    assert_eq!(f.status, CheckStatus::Fail);
    assert_eq!(f.message.as_deref(), Some("bad"));
    let e = CheckExecutionResult::error("broken".to_string());
    assert_eq!(e.status, CheckStatus::Error);
    assert_eq!(e.message.as_deref(), Some("broken"));
    let s = CheckExecutionResult::skipped("n/a".to_string());
    assert_eq!(s.status, CheckStatus::Skipped);
    assert_eq!(s.message.as_deref(), Some("n/a"));
}

#[test]
fn file_exists_passes_when_the_path_exists() {
    let r = file_exists_verdict("/etc/hosts", true);
    assert_eq!(r.status, CheckStatus::Pass);
    assert_eq!(message(&r), "File exists: /etc/hosts");
}

#[test]
fn file_exists_fails_when_the_path_is_absent() {
    let r = file_exists_verdict("relative/path", false);
    assert_eq!(r.status, CheckStatus::Fail);
    assert_eq!(message(&r), "File not found: relative/path");
}

#[test]
fn content_verdict_covers_all_four_cases() {
    let r = content_verdict(true, true);
    assert_eq!(r.status, CheckStatus::Pass);
    assert_eq!(message(&r), "Pattern found in file");
    let r = content_verdict(false, false);
    assert_eq!(r.status, CheckStatus::Pass);
    assert_eq!(message(&r), "Pattern not found in file");
    let r = content_verdict(true, false);
    assert_eq!(r.status, CheckStatus::Fail);
    assert_eq!(message(&r), "Pattern found in file (expected no match)");
    let r = content_verdict(false, true);
    assert_eq!(r.status, CheckStatus::Fail);
    assert_eq!(message(&r), "Pattern not found in file (expected match)");
}

#[test]
fn file_content_matches_with_the_pattern() {
    let read = Ok("PermitRootLogin no\nPort 22\n".to_string());
    let r = file_content_verdict("/etc/ssh/sshd_config", r"(?m)^Port\s+\d+$", true, &read);
    assert_eq!(r.status, CheckStatus::Pass);
    let r = file_content_verdict("/etc/ssh/sshd_config", r"(?m)^Port\s+23$", true, &read);
    assert_eq!(r.status, CheckStatus::Fail);
}

#[test]
fn file_content_without_wanted_match_passes_iff_pattern_is_absent() {
    let read = Ok("PermitRootLogin no\n".to_string());
    let absent = file_content_verdict("f", "PermitRootLogin yes", false, &read);
    assert_eq!(absent.status, CheckStatus::Pass);
    assert_eq!(message(&absent), "Pattern not found in file");
    let present = file_content_verdict("f", "PermitRootLogin no", false, &read);
    assert_eq!(present.status, CheckStatus::Fail);
    assert_eq!(message(&present), "Pattern found in file (expected no match)");
}

#[test]
fn file_content_with_invalid_pattern_is_an_error() {
    let read = Ok("anything".to_string());
    let r = file_content_verdict("f", "foo(bar", true, &read);
    assert_eq!(r.status, CheckStatus::Error);
    let expected = format!(
        "Invalid regex pattern: {}",
        regex::Regex::new("foo(bar").unwrap_err()
    );
    assert_eq!(message(&r), expected);
    assert_ne!(message(&r), "Invalid regex pattern: foo(bar");
}

#[test]
fn file_content_with_unreadable_file_is_an_error() {
    let read = Err("No such file or directory (os error 2)".to_string());
    let r = file_content_verdict("/missing", "x", true, &read);
    assert_eq!(r.status, CheckStatus::Error);
    assert_eq!(
        message(&r),
        "Failed to read file /missing: No such file or directory (os error 2)"
    );
    // The file is read before the pattern is compiled.
    let r = file_content_verdict("/missing", "foo(bar", true, &read);
    assert_eq!(
        message(&r),
        "Failed to read file /missing: No such file or directory (os error 2)"
    );
}

#[test]
fn config_setting_matches_the_first_line_of_the_key() {
    let read = Ok("# comment\n  max_connections = 100  \nmax_connections = 5\n".to_string());
    let r = config_setting_verdict("/etc/app.conf", "max_connections", "100", &read);
    assert_eq!(r.status, CheckStatus::Pass);
    assert_eq!(message(&r), "Config setting matches: max_connections = 100");
    let r = config_setting_verdict("/etc/app.conf", "max_connections", "5", &read);
    assert_eq!(r.status, CheckStatus::Fail);
    assert_eq!(
        message(&r),
        "Config setting mismatch: max_connections = 100 (expected 5)"
    );
}

#[test]
fn config_setting_accepts_a_colon() {
    let read = Ok("listen: 0.0.0.0\n".to_string());
    let r = config_setting_verdict("app.yml", "listen", "0.0.0.0", &read);
    assert_eq!(r.status, CheckStatus::Pass);
}

#[test]
fn config_setting_absent_is_a_failure_not_an_error() {
    let read = Ok("other = 1\n".to_string());
    let r = config_setting_verdict("/etc/app.conf", "max_connections", "100", &read);
    assert_eq!(r.status, CheckStatus::Fail);
    assert_eq!(
        message(&r),
        "Config setting not found: max_connections in /etc/app.conf"
    );
}

#[test]
fn config_setting_takes_the_key_literally() {
    // The dot of the key stands for a dot, not for any character.
    let read = Ok("axb = 1\n".to_string());
    let r = config_setting_verdict("f", "a.b", "1", &read);
    assert_eq!(r.status, CheckStatus::Fail);
    assert_eq!(message(&r), "Config setting not found: a.b in f");
    let read = Ok("a.b = 1\n".to_string());
    let r = config_setting_verdict("f", "a.b", "1", &read);
    assert_eq!(r.status, CheckStatus::Pass);
}

#[test]
fn config_setting_with_unreadable_file_is_an_error() {
    let read = Err("Permission denied (os error 13)".to_string());
    let r = config_setting_verdict("/etc/shadow", "k", "v", &read);
    assert_eq!(r.status, CheckStatus::Error);
    assert_eq!(
        message(&r),
        "Failed to read config file /etc/shadow: Permission denied (os error 13)"
    );
}

#[test]
fn setting_verdict_trims_the_captured_value() {
    let r = setting_verdict("f", "k", "v", &Some(Some("  v \t".to_string())));
    assert_eq!(r.status, CheckStatus::Pass);
    assert_eq!(message(&r), "Config setting matches: k = v");
    let r = setting_verdict("f", "k", "", &Some(None));
    assert_eq!(r.status, CheckStatus::Pass);
    assert_eq!(message(&r), "Config setting matches: k = ");
    let r = setting_verdict("f", "k", "v", &None);
    assert_eq!(r.status, CheckStatus::Fail);
}

#[test]
fn process_running_matches_case_insensitive_substring() {
    let processes = vec!["systemd".to_string(), "MyApp.exe".to_string()];
    let r = process_running_verdict("myapp", &processes);
    assert_eq!(r.status, CheckStatus::Pass);
    assert_eq!(message(&r), "Process is running: MyApp.exe");
    let r = process_running_verdict("MYAPP", &processes);
    assert_eq!(r.status, CheckStatus::Pass);
}

#[test]
fn process_running_fails_when_no_process_matches() {
    let processes = vec!["systemd".to_string(), "sshd".to_string()];
    let r = process_running_verdict("nginx", &processes);
    assert_eq!(r.status, CheckStatus::Fail);
    assert_eq!(message(&r), "Process not running: nginx");
    let r = process_running_verdict("nginx", &Vec::new());
    assert_eq!(r.status, CheckStatus::Fail);
}

#[test]
fn process_running_names_the_first_match() {
    let processes = vec!["nginx-worker".to_string(), "nginx".to_string()];
    let r = process_running_verdict("nginx", &processes);
    assert_eq!(message(&r), "Process is running: nginx-worker");
}

#[test]
fn port_open_passes_when_the_port_cannot_be_bound() {
    let r = port_open_verdict(8080, false);
    assert_eq!(r.status, CheckStatus::Pass);
    assert_eq!(message(&r), "Port 8080 is open/listening");
}

#[test]
fn port_open_fails_when_nothing_is_bound() {
    let r = port_open_verdict(65535, true);
    assert_eq!(r.status, CheckStatus::Fail);
    assert_eq!(message(&r), "Port 65535 is not open/listening");
    let r = port_open_verdict(0, true);
    assert_eq!(message(&r), "Port 0 is not open/listening");
}

#[test]
fn command_output_matches_stdout_followed_by_stderr() {
    let run = Ok(CommandRun { stdout: "ver".to_string(), stderr: "sion 2".to_string() });
    let r = command_output_verdict("version 2", &run);
    assert_eq!(r.status, CheckStatus::Pass);
    assert_eq!(message(&r), "Command output matches expected pattern");
}

#[test]
fn command_output_failure_shows_the_first_200_characters() {
    let long: String = "é".repeat(250);
    let run = Ok(CommandRun { stdout: long, stderr: String::new() });
    let r = command_output_verdict("^never$", &run);
    assert_eq!(r.status, CheckStatus::Fail);
    let expected = format!(
        "Command output does not match pattern. Output: {}",
        "é".repeat(200)
    );
    assert_eq!(message(&r), expected);
    let r = output_verdict(false, "short");
    assert_eq!(
        message(&r),
        "Command output does not match pattern. Output: short"
    );
}

#[test]
fn command_output_errors() {
    let run = Err("No such file or directory (os error 2)".to_string());
    let r = command_output_verdict("x", &run);
    assert_eq!(r.status, CheckStatus::Error);
    assert_eq!(
        message(&r),
        "Failed to execute command: No such file or directory (os error 2)"
    );
    let run = Ok(CommandRun { stdout: "x".to_string(), stderr: String::new() });
    let r = command_output_verdict("(", &run);
    assert_eq!(r.status, CheckStatus::Error);
    assert!(message(&r).starts_with("Invalid regex pattern: "));
}

#[test]
fn registry_path_names_hive_and_key() {
    let (hive, key) = parse_registry_path("HKEY_LOCAL_MACHINE\\SOFTWARE\\Vendor").unwrap();
    assert_eq!(hive, RegistryHive::LocalMachine);
    assert_eq!(key, "SOFTWARE\\Vendor");
    let (hive, key) = parse_registry_path("HKLM\\SOFTWARE").unwrap();
    assert_eq!(hive, RegistryHive::LocalMachine);
    assert_eq!(key, "SOFTWARE");
    let (hive, key) = parse_registry_path("HKCU\\Console").unwrap();
    assert_eq!(hive, RegistryHive::CurrentUser);
    assert_eq!(key, "Console");
    let (hive, key) = parse_registry_path("HKEY_CURRENT_USER\\Console").unwrap();
    assert_eq!(hive, RegistryHive::CurrentUser);
    assert_eq!(key, "Console");
    assert!(parse_registry_path("HKEY_USERS\\x").is_none());
    assert!(parse_registry_path("HKLM").is_none());
}

#[test]
fn registry_path_drops_a_repeated_hive_name() {
    let (_, key) = parse_registry_path("HKLM\\HKLM\\SOFTWARE").unwrap();
    assert_eq!(key, "SOFTWARE");
    let (_, key) = parse_registry_path("HKEY_LOCAL_MACHINE\\HKLM\\SOFTWARE").unwrap();
    assert_eq!(key, "SOFTWARE");
}

#[test]
fn registry_key_verdicts() {
    let none = None;
    let name = Some("Version".to_string());
    let wanted = Some("10".to_string());
    let missing = RegistryReading::KeyMissing { error: "not found".to_string() };
    let r = registry_key_verdict("HKLM\\SOFTWARE\\X", &none, &none, &missing);
    assert_eq!(r.status, CheckStatus::Fail);
    assert_eq!(message(&r), "Registry key not found: HKLM\\SOFTWARE\\X (not found)");

    let found = RegistryReading::KeyFound { value: None };
    let r = registry_key_verdict("HKLM\\SOFTWARE\\X", &none, &none, &found);
    assert_eq!(r.status, CheckStatus::Pass);
    assert_eq!(message(&r), "Registry key exists: HKLM\\SOFTWARE\\X");

    let value = RegistryReading::KeyFound { value: Some(Ok("10".to_string())) };
    let r = registry_key_verdict("HKLM\\SOFTWARE\\X", &name, &none, &value);
    assert_eq!(r.status, CheckStatus::Pass);
    assert_eq!(message(&r), "Registry value exists: Version = 10");
    let r = registry_key_verdict("HKLM\\SOFTWARE\\X", &name, &wanted, &value);
    assert_eq!(r.status, CheckStatus::Pass);
    assert_eq!(message(&r), "Registry value matches: Version = 10");

    let other = RegistryReading::KeyFound { value: Some(Ok("11".to_string())) };
    let r = registry_key_verdict("HKLM\\SOFTWARE\\X", &name, &wanted, &other);
    assert_eq!(r.status, CheckStatus::Fail);
    assert_eq!(message(&r), "Registry value mismatch: Version = 11 (expected 10)");

    let unread = RegistryReading::KeyFound { value: Some(Err("no value".to_string())) };
    let r = registry_key_verdict("HKLM\\SOFTWARE\\X", &name, &wanted, &unread);
    assert_eq!(r.status, CheckStatus::Fail);
    assert_eq!(message(&r), "Registry value not found: Version (no value)");

    let r = registry_key_verdict("HKEY_USERS\\X", &name, &wanted, &value);
    assert_eq!(r.status, CheckStatus::Error);
    assert_eq!(message(&r), "Unsupported registry hive in path: HKEY_USERS\\X");

    let r = registry_key_verdict("HKLM\\SOFTWARE\\X", &name, &wanted, &found);
    assert_eq!(r.status, CheckStatus::Error);
}

#[test]
fn registry_check_is_skipped_without_a_registry() {
    let engine = CheckExecutor::new(false);
    let valid = check("registry_key", object(vec![("path", text("HKLM\\SOFTWARE"))]));
    let r = engine.execute(&valid, None);
    assert_eq!(r.status, CheckStatus::Skipped);
    assert_eq!(message(&r), "Registry checks are only available on Windows");
    // Whatever the parameters are.
    let malformed = check("registry_key", ParamValue::Null);
    let r = engine.execute(&malformed, None);
    assert_eq!(r.status, CheckStatus::Skipped);
}

#[test]
fn registry_check_runs_where_there_is_a_registry() {
    let engine = CheckExecutor::new(true);
    let valid = check(
        "registry_key",
        object(vec![
            ("path", text("HKLM\\SOFTWARE\\X")),
            ("value_name", text("Version")),
            ("expected", ParamValue::Null),
        ]),
    );
    match engine.prepare(&valid) {
        Plan::Observe { probe: Probe::RegistryValue { hive, subkey, value_name }, .. } => {
            assert_eq!(hive, RegistryHive::LocalMachine);
            assert_eq!(subkey, "SOFTWARE\\X");
            assert_eq!(value_name.as_deref(), Some("Version"));
        }
        other => panic!("unexpected plan: {:?}", other),
    }
    let seen = Observation::Registry(RegistryReading::KeyFound {
        value: Some(Ok("10".to_string())),
    });
    let r = engine.execute(&valid, Some(&seen));
    assert_eq!(r.status, CheckStatus::Pass);

    let unsupported = check("registry_key", object(vec![("path", text("HKEY_USERS\\X"))]));
    let r = engine.execute(&unsupported, Some(&seen));
    assert_eq!(r.status, CheckStatus::Error);
    assert_eq!(message(&r), "Unsupported registry hive in path: HKEY_USERS\\X");

    let malformed = check("registry_key", object(vec![("path", ParamValue::Bool(true))]));
    let r = engine.execute(&malformed, Some(&seen));
    assert_eq!(r.status, CheckStatus::Error);
}

#[test]
fn unknown_kind_is_an_error() {
    let engine = CheckExecutor::new(false);
    let r = engine.execute(&check("disk_free", ParamValue::Null), None);
    assert_eq!(r.status, CheckStatus::Error);
    assert_eq!(message(&r), "Unknown check type: disk_free");
    // Kind names are matched letter for letter.
    let r = engine.execute(&check("File_Exists", object(vec![("path", text("/"))])), None);
    assert_eq!(message(&r), "Unknown check type: File_Exists");
}

#[test]
fn valid_checks_whose_condition_is_false_fail() {
    let engine = CheckExecutor::new(true);
    let cases: Vec<(AgentCheckDefinition, Observation)> = vec![
        (
            check("file_exists", object(vec![("path", text("/nope"))])),
            Observation::Path { exists: false },
        ),
        (
            check(
                "file_content",
                object(vec![("path", text("/f")), ("pattern", text("^root:"))]),
            ),
            Observation::File(Ok("daemon:x:1:1\n".to_string())),
        ),
        (
            check("registry_key", object(vec![("path", text("HKLM\\SOFTWARE\\X"))])),
            Observation::Registry(RegistryReading::KeyMissing { error: "absent".to_string() }),
        ),
        (
            check(
                "config_setting",
                object(vec![("file", text("/c")), ("key", text("k")), ("expected", text("v"))]),
            ),
            Observation::File(Ok("k = w\n".to_string())),
        ),
        (
            check("process_running", object(vec![("name", text("nginx"))])),
            Observation::Processes(vec!["sshd".to_string()]),
        ),
        (
            check(
                "port_open",
                object(vec![("port", ParamValue::Number(ParamNumber::Unsigned(8080)))]),
            ),
            Observation::Port { bind_succeeded: true },
        ),
        (
            check(
                "command_output",
                object(vec![("command", text("uname")), ("expected_pattern", text("^Darwin"))]),
            ),
            Observation::Command(Ok(CommandRun {
                stdout: "Linux\n".to_string(),
                stderr: String::new(),
            })),
        ),
    ];
    for (definition, seen) in cases.iter() {
        let r = engine.execute(definition, Some(seen));
        assert_eq!(r.status, CheckStatus::Fail, "{}", definition.check_type);
        assert!(!message(&r).is_empty());
    }
}

#[test]
fn malformed_parameters_are_errors_for_every_kind() {
    let engine = CheckExecutor::new(true);
    let kinds = [
        "file_exists",
        "file_content",
        "registry_key",
        "config_setting",
        "process_running",
        "port_open",
        "command_output",
    ];
    let seen = Observation::Path { exists: true };
    for kind in kinds.iter() {
        // A required field is absent.
        let r = engine.execute(&check(kind, object(vec![])), Some(&seen));
        assert_eq!(r.status, CheckStatus::Error, "{}", kind);
        assert!(message(&r).starts_with("Invalid parameters: missing field `"), "{}", kind);
        // The parameter set is not an object.
        let r = engine.execute(&check(kind, text("x")), None);
        assert_eq!(r.status, CheckStatus::Error, "{}", kind);
        assert!(message(&r).len() > "Invalid parameters: ".len());
        // A field has the wrong type.
        let wrong = object(vec![
            ("path", ParamValue::Bool(true)),
            ("file", ParamValue::Null),
            ("name", ParamValue::List(vec![])),
            ("port", text("80")),
            ("command", ParamValue::Number(ParamNumber::Unsigned(1))),
        ]);
        let r = engine.execute(&check(kind, wrong), Some(&seen));
        assert_eq!(r.status, CheckStatus::Error, "{}", kind);
        assert!(message(&r).starts_with("Invalid parameters: invalid type for field `"));
    }
}

#[test]
fn an_observation_of_another_kind_is_an_error() {
    let engine = CheckExecutor::new(false);
    let definition = check("file_exists", object(vec![("path", text("/"))]));
    let r = engine.execute(&definition, Some(&Observation::Port { bind_succeeded: true }));
    assert_eq!(r.status, CheckStatus::Error);
    assert_eq!(message(&r), "Observation does not answer the check");
    let r = engine.execute(&definition, None);
    assert_eq!(r.status, CheckStatus::Error);
}

#[test]
fn prepare_names_the_probe_of_each_kind() {
    let engine = CheckExecutor::new(false);
    match engine.prepare(&check("file_exists", object(vec![("path", text("/a"))]))) {
        Plan::Observe { probe: Probe::PathExists { path }, check: CheckType::FileExists { .. } } => {
            assert_eq!(path, "/a")
        }
        other => panic!("unexpected plan: {:?}", other),
    }
    match engine.prepare(&check(
        "config_setting",
        object(vec![("file", text("/c")), ("key", text("k")), ("expected", text("v"))]),
    )) {
        Plan::Observe { probe: Probe::ReadFile { path }, .. } => assert_eq!(path, "/c"),
        other => panic!("unexpected plan: {:?}", other),
    }
    match engine.prepare(&check("process_running", object(vec![("name", text("x"))]))) {
        Plan::Observe { probe: Probe::ProcessList, .. } => {}
        other => panic!("unexpected plan: {:?}", other),
    }
    match engine.prepare(&check(
        "port_open",
        object(vec![("port", ParamValue::Number(ParamNumber::Unsigned(22)))]),
    )) {
        Plan::Observe { probe: Probe::BindPort { port }, .. } => assert_eq!(port, 22),
        other => panic!("unexpected plan: {:?}", other),
    }
    match engine.prepare(&check(
        "command_output",
        object(vec![("command", text("uname -a")), ("expected_pattern", text("Linux"))]),
    )) {
        Plan::Observe { probe: Probe::RunCommand { command }, .. } => {
            assert_eq!(command, "uname -a")
        }
        other => panic!("unexpected plan: {:?}", other),
    }
    match engine.prepare(&check("file_exists", ParamValue::Null)) {
        Plan::Settled(r) => assert_eq!(r.status, CheckStatus::Error),
        other => panic!("unexpected plan: {:?}", other),
    }
}

#[test]
fn observations_answer_their_probes() {
    let path = Probe::PathExists { path: "/".to_string() };
    assert!(Observation::Path { exists: true }.answers(&path));
    assert!(!Observation::Processes(vec![]).answers(&path));
    let value = Probe::RegistryValue {
        hive: RegistryHive::CurrentUser,
        subkey: "k".to_string(),
        value_name: Some("v".to_string()),
    };
    let unread = Observation::Registry(RegistryReading::KeyFound { value: None });
    assert!(!unread.answers(&value));
    let missing = Observation::Registry(RegistryReading::KeyMissing { error: "e".to_string() });
    assert!(missing.answers(&value));
    assert_eq!(CheckTypeId::PortOpen.as_str(), "port_open");
}

#[test]
fn setting_value_verdict_compares_the_value() {
    let r = setting_value_verdict("/etc/app.conf", "k", "v", Some("v"));
    assert_eq!(r.status, CheckStatus::Pass);
    assert_eq!(message(&r), "Config setting matches: k = v");
    let r = setting_value_verdict("/etc/app.conf", "k", "v", Some("w"));
    assert_eq!(r.status, CheckStatus::Fail);
    assert_eq!(message(&r), "Config setting mismatch: k = w (expected v)");
    let r = setting_value_verdict("/etc/app.conf", "k", "v", Some(" v"));
    assert_eq!(r.status, CheckStatus::Fail);
    let r = setting_value_verdict("/etc/app.conf", "k", "v", None);
    assert_eq!(r.status, CheckStatus::Fail);
    assert_eq!(message(&r), "Config setting not found: k in /etc/app.conf");
    let r = setting_value_verdict("f", "k", "", Some(""));
    assert_eq!(r.status, CheckStatus::Pass);
}

#[test]
fn setting_verdict_trims_every_kind_of_white_space() {
    let padded = "\u{3000}\u{a0}\t v w \u{2003}\u{85}\r\n".to_string();
    let r = setting_verdict("f", "k", "v w", &Some(Some(padded)));
    assert_eq!(r.status, CheckStatus::Pass);
    assert_eq!(message(&r), "Config setting matches: k = v w");
    // A zero-width space is no white space.
    let r = setting_verdict("f", "k", "v", &Some(Some("\u{200b}v".to_string())));
    assert_eq!(r.status, CheckStatus::Fail);
    let r = setting_verdict("f", "k", "", &Some(Some(" \t ".to_string())));
    assert_eq!(r.status, CheckStatus::Pass);
}

#[test]
fn lowered_process_verdict_searches_the_lowercase_names() {
    let names = vec![
        LoweredName { name: "systemd".to_string(), lowered: "systemd".to_string() },
        LoweredName { name: "MyApp.exe".to_string(), lowered: "myapp.exe".to_string() },
        LoweredName { name: "MYAPP-helper".to_string(), lowered: "myapp-helper".to_string() },
    ];
    let r = lowered_process_verdict("MyApp", "myapp", &names);
    assert_eq!(r.status, CheckStatus::Pass);
    assert_eq!(message(&r), "Process is running: MyApp.exe");
    // The target is taken as it is given: it is not put in lowercase here.
    let r = lowered_process_verdict("MyApp", "MyApp", &names);
    assert_eq!(r.status, CheckStatus::Fail);
    assert_eq!(message(&r), "Process not running: MyApp");
    let r = lowered_process_verdict("nginx", "nginx", &names);
    assert_eq!(r.status, CheckStatus::Fail);
    let r = lowered_process_verdict("", "", &names);
    assert_eq!(message(&r), "Process is running: systemd");
    let r = lowered_process_verdict("x", "x", &vec![]);
    assert_eq!(r.status, CheckStatus::Fail);
}
