use endpoint_assessment::agent::{
    default_interval, Agent, AgentAction, AgentEvent, AgentPhase, Config, ConfigError,
    DEFAULT_INTERVAL_SECS, REGISTRATION_BACKOFF_SECS,
};
use endpoint_assessment::executor::{CheckExecutor, Observation, Probe};
use endpoint_assessment::models::{CheckStatus, Severity};
use endpoint_assessment::params::{ParamField, ParamValue};
use endpoint_assessment::protocol::{
    AgentCheckDefinition, ChecksResponse, RegisterRequest, RegisterResponse, SystemSnapshotData,
};

fn new_agent() -> Agent {
    let registration = RegisterRequest {
        hostname: "box-1".to_string(),
        os: "Linux".to_string(),
        os_version: "6.1".to_string(),
        agent_version: "0.1.0".to_string(),
        ip_addresses: vec![],
    };
    Agent::new(CheckExecutor::new(false), registration, 300)
}

fn registered_agent() -> Agent {
    let mut agent = new_agent();
    agent.step(AgentEvent::Started);
    agent.step(AgentEvent::Registered(RegisterResponse {
        endpoint_id: 77,
        message: "Registration successful".to_string(),
    }));
    agent
}

fn empty_snapshot() -> SystemSnapshotData {
    SystemSnapshotData {
        collected_at: 5,
        cpu_usage_bits: 0,
        memory_total: 0,
        memory_used: 0,
        disk_total: 0,
        disk_used: 0,
        processes: vec![],
        open_ports: vec![],
        installed_software: vec![],
    }
}

fn file_check(id: u128, path: &str) -> AgentCheckDefinition {
    AgentCheckDefinition {
        id,
        name: format!("exists {}", path),
        check_type: "file_exists".to_string(),
        parameters: ParamValue::Object(vec![ParamField {
            name: "path".to_string(),
            value: ParamValue::Text(path.to_string()),
        }]),
        severity: Severity::Low,
    }
}

fn broken_check(id: u128) -> AgentCheckDefinition {
    AgentCheckDefinition {
        id,
        name: "broken".to_string(),
        check_type: "file_exists".to_string(),
        parameters: ParamValue::Null,
        severity: Severity::Low,
    }
}

fn to_fetching(agent: &mut Agent) {
    assert!(matches!(agent.step(AgentEvent::Tick), AgentAction::CollectSnapshot));
    agent.step(AgentEvent::SnapshotCollected(empty_snapshot()));
    agent.step(AgentEvent::HeartbeatDone { delivered: true });
    assert_eq!(agent.phase, AgentPhase::Fetching);
}

#[test]
fn agent_starts_by_registering() {
    let mut agent = new_agent();
    assert_eq!(agent.phase, AgentPhase::Starting);
    assert_eq!(agent.registration().hostname, "box-1");
    assert!(matches!(agent.step(AgentEvent::Started), AgentAction::Register));
    assert_eq!(agent.phase, AgentPhase::Registering);
    assert_eq!(agent.endpoint_id, None);
}

#[test]
fn registration_is_retried_after_a_fixed_wait() {
    let mut agent = new_agent();
    agent.step(AgentEvent::Started);
    for _ in 0..5 {
        match agent.step(AgentEvent::RegistrationFailed) {
            AgentAction::Sleep { seconds } => assert_eq!(seconds, 30),
            other => panic!("unexpected action: {:?}", other),
        }
        assert_eq!(agent.phase, AgentPhase::Backoff);
        assert!(matches!(agent.step(AgentEvent::BackoffElapsed), AgentAction::Register));
        assert_eq!(agent.phase, AgentPhase::Registering);
    }
    assert_eq!(REGISTRATION_BACKOFF_SECS, 30);
}

#[test]
fn registered_agent_waits_for_its_tick() {
    let mut agent = new_agent();
    agent.step(AgentEvent::Started);
    let action = agent.step(AgentEvent::Registered(RegisterResponse {
        endpoint_id: 77,
        message: String::new(),
    }));
    match action {
        AgentAction::AwaitTick { interval_secs } => assert_eq!(interval_secs, 300),
        other => panic!("unexpected action: {:?}", other),
    }
    assert_eq!(agent.phase, AgentPhase::Idle);
    assert_eq!(agent.endpoint_id, Some(77));
}

#[test]
fn tick_collects_then_sends_a_heartbeat() {
    let mut agent = registered_agent();
    assert!(matches!(agent.step(AgentEvent::Tick), AgentAction::CollectSnapshot));
    match agent.step(AgentEvent::SnapshotCollected(empty_snapshot())) {
        AgentAction::SendHeartbeat { endpoint_id, snapshot } => {
            assert_eq!(endpoint_id, 77);
            assert_eq!(snapshot.collected_at, 5);
        }
        other => panic!("unexpected action: {:?}", other),
    }
    assert_eq!(agent.phase, AgentPhase::Heartbeating);
}

#[test]
fn a_lost_heartbeat_does_not_stop_the_tick() {
    let mut agent = registered_agent();
    agent.step(AgentEvent::Tick);
    agent.step(AgentEvent::SnapshotCollected(empty_snapshot()));
    let action = agent.step(AgentEvent::HeartbeatDone { delivered: false });
    assert!(matches!(action, AgentAction::FetchChecks));
    assert_eq!(agent.phase, AgentPhase::Fetching);
}

#[test]
fn no_checks_means_nothing_to_submit() {
    let mut agent = registered_agent();
    to_fetching(&mut agent);
    assert!(matches!(
        agent.step(AgentEvent::ChecksFetched(None)),
        AgentAction::AwaitTick { interval_secs: 300 }
    ));
    assert_eq!(agent.phase, AgentPhase::Idle);
    to_fetching(&mut agent);
    let empty = ChecksResponse { checks: vec![] };
    assert!(matches!(
        agent.step(AgentEvent::ChecksFetched(Some(empty))),
        AgentAction::AwaitTick { .. }
    ));
    assert_eq!(agent.phase, AgentPhase::Idle);
}

#[test]
fn checks_are_examined_in_turn_and_submitted_in_one_batch() {
    let mut agent = registered_agent();
    to_fetching(&mut agent);
    let checks =
        ChecksResponse { checks: vec![file_check(1, "/a"), broken_check(2), file_check(3, "/c")] };
    match agent.step(AgentEvent::ChecksFetched(Some(checks))) {
        AgentAction::Examine { probe: Some(Probe::PathExists { path }) } => assert_eq!(path, "/a"),
        other => panic!("unexpected action: {:?}", other),
    }
    assert_eq!(agent.phase, AgentPhase::Examining);
    let seen = Some(Observation::Path { exists: true });
    match agent.step(AgentEvent::Examined { observation: seen, at: 100 }) {
        AgentAction::Examine { probe: None } => {}
        other => panic!("unexpected action: {:?}", other),
    }
    match agent.step(AgentEvent::Examined { observation: None, at: 101 }) {
        AgentAction::Examine { probe: Some(Probe::PathExists { path }) } => assert_eq!(path, "/c"),
        other => panic!("unexpected action: {:?}", other),
    }
    let seen = Some(Observation::Path { exists: false });
    match agent.step(AgentEvent::Examined { observation: seen, at: 102 }) {
        AgentAction::Submit { endpoint_id, results } => {
            assert_eq!(endpoint_id, 77);
            assert_eq!(results.len(), 3);
            assert_eq!(results[0].check_id, 1);
            assert_eq!(results[0].status, CheckStatus::Pass);
            assert_eq!(results[0].message.as_deref(), Some("File exists: /a"));
            assert_eq!(results[0].collected_at, 100);
            assert_eq!(results[1].check_id, 2);
            assert_eq!(results[1].status, CheckStatus::Error);
            assert_eq!(results[1].collected_at, 101);
            assert_eq!(results[2].check_id, 3);
            assert_eq!(results[2].status, CheckStatus::Fail);
            assert_eq!(results[2].collected_at, 102);
        }
        other => panic!("unexpected action: {:?}", other),
    }
    assert_eq!(agent.phase, AgentPhase::Submitting);
    assert!(agent.results.is_empty());
}

#[test]
fn a_lost_batch_is_not_sent_again() {
    let mut agent = registered_agent();
    to_fetching(&mut agent);
    agent.step(AgentEvent::ChecksFetched(Some(ChecksResponse { checks: vec![file_check(1, "/a")] })));
    agent.step(AgentEvent::Examined {
        observation: Some(Observation::Path { exists: true }),
        at: 1,
    });
    let action = agent.step(AgentEvent::SubmitDone { delivered: false });
    assert!(matches!(action, AgentAction::AwaitTick { interval_secs: 300 }));
    assert_eq!(agent.phase, AgentPhase::Idle);
    // The next tick starts anew.
    to_fetching(&mut agent);
}

#[test]
fn events_that_do_not_belong_to_the_phase_are_ignored() {
    let mut agent = new_agent();
    assert!(matches!(agent.step(AgentEvent::Tick), AgentAction::Ignore));
    assert_eq!(agent.phase, AgentPhase::Starting);
    let mut agent = registered_agent();
    assert!(matches!(agent.step(AgentEvent::Started), AgentAction::Ignore));
    assert!(matches!(agent.step(AgentEvent::RegistrationFailed), AgentAction::Ignore));
    assert!(matches!(
        agent.step(AgentEvent::SubmitDone { delivered: true }),
        AgentAction::Ignore
    ));
    assert_eq!(agent.phase, AgentPhase::Idle);
    assert_eq!(agent.endpoint_id, Some(77));
}

#[test]
fn configuration_from_arguments_has_the_default_interval() {
    let c = Config::from_args("http://server".to_string(), "secret".to_string());
    assert_eq!(c.server_url, "http://server");
    assert_eq!(c.agent_secret, "secret");
    assert_eq!(c.collection_interval_secs, 300);
    assert_eq!(c.hostname_override, None);
    assert_eq!(default_interval(), 300);
    assert_eq!(DEFAULT_INTERVAL_SECS, 300);
}

#[test]
fn configuration_from_a_command_line_skips_options() {
    let args: Vec<String> = ["agent", "--service", "http://server", "--x", "secret", "more"]
        .iter()
        .map(|s| s.to_string())
        .collect();
    let c = Config::from_command_line(&args).unwrap();
    assert_eq!(c.server_url, "http://server");
    assert_eq!(c.agent_secret, "secret");
    let short: Vec<String> =
        ["agent", "http://server", "--secret"].iter().map(|s| s.to_string()).collect();
    assert!(Config::from_command_line(&short).is_none());
    assert!(Config::from_command_line(&vec![]).is_none());
}

#[test]
fn configured_hostname_wins_over_the_detected_one() {
    let mut c = Config::from_args("u".to_string(), "s".to_string());
    assert_eq!(c.hostname("detected".to_string()), "detected");
    c.hostname_override = Some("configured".to_string());
    assert_eq!(c.hostname("detected".to_string()), "configured");
}

#[test]
fn configuration_from_the_environment_needs_address_and_secret() {
    let url = || Some("http://server".to_string());
    let secret = || Some("s".to_string());
    let c = Config::from_env(url(), secret(), None, None).unwrap();
    assert_eq!(c.server_url, "http://server");
    assert_eq!(c.agent_secret, "s");
    assert_eq!(c.collection_interval_secs, 300);
    assert_eq!(c.hostname_override, None);
    let c = Config::from_env(url(), secret(), Some(60), Some("box".to_string())).unwrap();
    assert_eq!(c.collection_interval_secs, 60);
    assert_eq!(c.hostname_override.as_deref(), Some("box"));
    assert_eq!(
        Config::from_env(None, secret(), None, None).unwrap_err(),
        ConfigError::MissingServerUrl
    );
    assert_eq!(
        Config::from_env(None, None, None, None).unwrap_err(),
        ConfigError::MissingServerUrl
    );
    assert_eq!(
        Config::from_env(url(), None, Some(5), None).unwrap_err(),
        ConfigError::MissingAgentSecret
    );
}
