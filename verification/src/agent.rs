//! The agent's runtime loop, as a state machine.
//!
//! The agent registers, retrying until it succeeds, and then works in ticks:
//! collect a snapshot, send a heartbeat, fetch the checks, examine each in
//! turn, submit the results in one batch. The machine decides; it neither
//! waits nor talks to anyone. `step` takes what happened (`AgentEvent`) and
//! answers with what is to be done next (`AgentAction`).
//!
//! A tick's failures stay in the tick: a heartbeat that was not delivered
//! does not keep the checks from being fetched, checks that could not be
//! fetched leave nothing to examine or submit, and a batch that was not
//! delivered is not sent again: the next tick's results stand for it.

use crate::executor::{
    executed, needed, planned, CheckExecutor, Observation, Plan, PlanView, Probe,
};
use crate::protocol::{
    AgentCheckDefinition, AgentCheckResult, ChecksResponse, RegisterRequest, RegisterResponse,
    SystemSnapshotData,
};
use crate::text::{starts_with_text, text_of};
use vstd::prelude::*;

verus! {

/// Seconds between two attempts to register.
pub const REGISTRATION_BACKOFF_SECS: u64 = 30;

/// Seconds between two ticks, where the configuration gives none.
pub const DEFAULT_INTERVAL_SECS: u64 = 300;

/// Where the agent is in its loop.
#[derive(Debug, Clone, Copy, PartialEq, Eq, Structural)]
pub enum AgentPhase {
    /// Nothing was done yet.
    Starting,
    /// A registration request is under way.
    Registering,
    /// Registration failed; the agent waits before it tries again.
    Backoff,
    /// Registered, and waiting for the next tick.
    Idle,
    /// A snapshot is being collected.
    Collecting,
    /// A heartbeat is under way.
    Heartbeating,
    /// The checks are being fetched.
    Fetching,
    /// The host is being looked at for the check at `cursor`.
    Examining,
    /// The results are under way.
    Submitting,
}

/// What happened.
#[derive(Debug)]
pub enum AgentEvent {
    /// The agent was started.
    Started,
    /// The server answered the registration.
    Registered(RegisterResponse),
    /// The registration did not get through, or was refused.
    RegistrationFailed,
    /// The wait after a failed registration is over.
    BackoffElapsed,
    /// The interval between two ticks is over.
    Tick,
    /// The snapshot was collected.
    SnapshotCollected(SystemSnapshotData),
    /// The heartbeat was sent, with or without success.
    HeartbeatDone { delivered: bool },
    /// The checks were fetched, or could not be.
    ChecksFetched(Option<ChecksResponse>),
    /// The host was looked at, at the time `at`. There is no observation
    /// where none was asked for.
    Examined { observation: Option<Observation>, at: i64 },
    /// The results were sent, with or without success.
    SubmitDone { delivered: bool },
}

/// What is to be done next.
#[derive(Debug)]
pub enum AgentAction {
    /// Send the agent's registration request.
    Register,
    /// Wait, then report `BackoffElapsed`.
    Sleep { seconds: u64 },
    /// Wait for the next tick, then report `Tick`.
    AwaitTick { interval_secs: u64 },
    /// Collect a snapshot of the host.
    CollectSnapshot,
    /// Send the snapshot as a heartbeat.
    SendHeartbeat { endpoint_id: u128, snapshot: SystemSnapshotData },
    /// Fetch the current checks.
    FetchChecks,
    /// Look at the host as `probe` says; where there is none, report the time
    /// alone.
    Examine { probe: Option<Probe> },
    /// Send the results in one batch.
    Submit { endpoint_id: u128, results: Vec<AgentCheckResult> },
    /// The event does not belong to the phase: nothing changes.
    Ignore,
}

/// The agent.
#[derive(Debug)]
pub struct Agent {
    pub executor: CheckExecutor,
    pub registration: RegisterRequest,
    pub interval_secs: u64,
    pub phase: AgentPhase,
    pub endpoint_id: Option<u128>,
    pub checks: Vec<AgentCheckDefinition>,
    pub cursor: usize,
    pub results: Vec<AgentCheckResult>,
}

/// The action asks for the look at the host that `check` needs, and for none
/// where the check's outcome stands without one.
pub open spec fn examines(executor: CheckExecutor, check: AgentCheckDefinition, action: AgentAction) -> bool {
    match action {
        AgentAction::Examine { probe } => match planned(
            executor.registry_available,
            check.check_type@,
            check.parameters,
        ) {
            PlanView::Settled(_) => probe is None,
            PlanView::Observe(valid) => match probe {
                Some(p) => needed(valid) == Some(p@),
                None => false,
            },
        },
        _ => false,
    }
}

/// The result reports the outcome of `check` under what was observed, as
/// collected at `at`.
pub open spec fn reports(
    result: AgentCheckResult,
    executor: CheckExecutor,
    check: AgentCheckDefinition,
    observation: Option<Observation>,
    at: i64,
) -> bool {
    let outcome = executed(
        executor.registry_available,
        check.check_type@,
        check.parameters,
        observation,
    );
    &&& result.check_id == check.id
    &&& result.collected_at == at
    &&& result.status == outcome.status
    &&& text_of(result.message) == outcome.message
}

/// The agent's configuration and registration stay as they are.
pub open spec fn same_setup(pre: Agent, post: Agent) -> bool {
    &&& post.executor == pre.executor
    &&& post.registration == pre.registration
    &&& post.interval_secs == pre.interval_secs
}

/// One step of the agent: from `pre`, on `event`, to `post` and `action`.
pub open spec fn stepped(pre: Agent, event: AgentEvent, post: Agent, action: AgentAction) -> bool {
    match (pre.phase, event) {
        (AgentPhase::Starting, AgentEvent::Started) => {
            &&& post == Agent { phase: AgentPhase::Registering, ..pre }
            &&& action == AgentAction::Register
        },
        (AgentPhase::Registering, AgentEvent::Registered(response)) => {
            &&& post == Agent {
                phase: AgentPhase::Idle,
                endpoint_id: Some(response.endpoint_id),
                ..pre
            }
            &&& action == AgentAction::AwaitTick { interval_secs: pre.interval_secs }
        },
        (AgentPhase::Registering, AgentEvent::RegistrationFailed) => {
            &&& post == Agent { phase: AgentPhase::Backoff, ..pre }
            &&& action == AgentAction::Sleep { seconds: REGISTRATION_BACKOFF_SECS }
        },
        (AgentPhase::Backoff, AgentEvent::BackoffElapsed) => {
            &&& post == Agent { phase: AgentPhase::Registering, ..pre }
            &&& action == AgentAction::Register
        },
        (AgentPhase::Idle, AgentEvent::Tick) => {
            &&& post == Agent { phase: AgentPhase::Collecting, ..pre }
            &&& action == AgentAction::CollectSnapshot
        },
        (AgentPhase::Collecting, AgentEvent::SnapshotCollected(snapshot)) => {
            &&& post == Agent { phase: AgentPhase::Heartbeating, ..pre }
            &&& action == AgentAction::SendHeartbeat { endpoint_id: pre.endpoint_id->0, snapshot }
        },
        (AgentPhase::Heartbeating, AgentEvent::HeartbeatDone { .. }) => {
            &&& post == Agent { phase: AgentPhase::Fetching, ..pre }
            &&& action == AgentAction::FetchChecks
        },
        (AgentPhase::Fetching, AgentEvent::ChecksFetched(None)) => {
            &&& post == Agent { phase: AgentPhase::Idle, ..pre }
            &&& action == AgentAction::AwaitTick { interval_secs: pre.interval_secs }
        },
        (AgentPhase::Fetching, AgentEvent::ChecksFetched(Some(response))) => {
            if response.checks@.len() == 0 {
                &&& post == Agent { phase: AgentPhase::Idle, ..pre }
                &&& action == AgentAction::AwaitTick { interval_secs: pre.interval_secs }
            } else {
                &&& same_setup(pre, post)
                &&& post.endpoint_id == pre.endpoint_id
                &&& post.phase == AgentPhase::Examining
                &&& post.checks == response.checks
                &&& post.cursor == 0
                &&& post.results@.len() == 0
                &&& examines(pre.executor, response.checks@[0], action)
            }
        },
        (AgentPhase::Examining, AgentEvent::Examined { observation, at }) => {
            &&& same_setup(pre, post)
            &&& post.endpoint_id == pre.endpoint_id
            &&& post.checks == pre.checks
            &&& post.cursor == pre.cursor + 1
            &&& if pre.cursor + 1 < pre.checks@.len() {
                &&& post.phase == AgentPhase::Examining
                &&& post.results@.len() == pre.results@.len() + 1
                &&& post.results@.drop_last() == pre.results@
                &&& reports(
                    post.results@.last(),
                    pre.executor,
                    pre.checks@[pre.cursor as int],
                    observation,
                    at,
                )
                &&& examines(pre.executor, pre.checks@[pre.cursor + 1], action)
            } else {
                &&& post.phase == AgentPhase::Submitting
                &&& post.results@.len() == 0
                &&& match action {
                    AgentAction::Submit { endpoint_id, results } => {
                        &&& endpoint_id == pre.endpoint_id->0
                        &&& results@.len() == pre.results@.len() + 1
                        &&& results@.drop_last() == pre.results@
                        &&& reports(
                            results@.last(),
                            pre.executor,
                            pre.checks@[pre.cursor as int],
                            observation,
                            at,
                        )
                    },
                    _ => false,
                }
            }
        },
        (AgentPhase::Submitting, AgentEvent::SubmitDone { .. }) => {
            &&& post == Agent { phase: AgentPhase::Idle, ..pre }
            &&& action == AgentAction::AwaitTick { interval_secs: pre.interval_secs }
        },
        _ => post == pre && action == AgentAction::Ignore,
    }
}

impl Agent {
    /// What holds of an agent between steps: once registered it knows its
    /// endpoint, and while it examines, one result stands for each check
    /// before the cursor.
    pub open spec fn wf(&self) -> bool {
        &&& (self.phase != AgentPhase::Starting && self.phase != AgentPhase::Registering
            && self.phase != AgentPhase::Backoff) ==> self.endpoint_id is Some
        &&& self.phase == AgentPhase::Examining ==> self.cursor < self.checks@.len()
            && self.results@.len() == self.cursor
    }

    /// An agent that was not started yet.
    pub fn new(executor: CheckExecutor, registration: RegisterRequest, interval_secs: u64) -> (r:
        Agent)
        ensures
            r.wf(),
            r.phase == AgentPhase::Starting,
            r.executor == executor,
            r.registration == registration,
            r.interval_secs == interval_secs,
            r.endpoint_id is None,
            r.checks@.len() == 0,
            r.results@.len() == 0,
    {
        Agent {
            executor,
            registration,
            interval_secs,
            phase: AgentPhase::Starting,
            endpoint_id: None,
            checks: Vec::new(),
            cursor: 0,
            results: Vec::new(),
        }
    }

    /// The request with which the agent registers.
    pub fn registration(&self) -> (r: &RegisterRequest)
        ensures
            *r == self.registration,
    {
        &self.registration
    }

    fn examine(&self, index: usize) -> (r: AgentAction)
        requires
            index < self.checks@.len(),
        ensures
            examines(self.executor, self.checks@[index as int], r),
    {
        match self.executor.prepare(&self.checks[index]) {
            Plan::Settled(_) => AgentAction::Examine { probe: None },
            Plan::Observe { probe, .. } => AgentAction::Examine { probe: Some(probe) },
        }
    }

    /// Takes one step: decides, from the phase and from what happened, what
    /// is to be done next. An event that does not belong to the phase changes
    /// nothing.
    pub fn step(&mut self, event: AgentEvent) -> (r: AgentAction)
        requires
            old(self).wf(),
        ensures
            final(self).wf(),
            stepped(*old(self), event, *final(self), r),
    {
        match (self.phase, event) {
            (AgentPhase::Starting, AgentEvent::Started) => {
                self.phase = AgentPhase::Registering;
                AgentAction::Register
            },
            (AgentPhase::Registering, AgentEvent::Registered(response)) => {
                self.endpoint_id = Some(response.endpoint_id);
                self.phase = AgentPhase::Idle;
                AgentAction::AwaitTick { interval_secs: self.interval_secs }
            },
            (AgentPhase::Registering, AgentEvent::RegistrationFailed) => {
                self.phase = AgentPhase::Backoff;
                AgentAction::Sleep { seconds: REGISTRATION_BACKOFF_SECS }
            },
            (AgentPhase::Backoff, AgentEvent::BackoffElapsed) => {
                self.phase = AgentPhase::Registering;
                AgentAction::Register
            },
            (AgentPhase::Idle, AgentEvent::Tick) => {
                self.phase = AgentPhase::Collecting;
                AgentAction::CollectSnapshot
            },
            (AgentPhase::Collecting, AgentEvent::SnapshotCollected(snapshot)) => {
                self.phase = AgentPhase::Heartbeating;
                match self.endpoint_id {
                    Some(endpoint_id) => AgentAction::SendHeartbeat { endpoint_id, snapshot },
                    None => AgentAction::Ignore,
                }
            },
            (AgentPhase::Heartbeating, AgentEvent::HeartbeatDone { .. }) => {
                self.phase = AgentPhase::Fetching;
                AgentAction::FetchChecks
            },
            (AgentPhase::Fetching, AgentEvent::ChecksFetched(None)) => {
                self.phase = AgentPhase::Idle;
                AgentAction::AwaitTick { interval_secs: self.interval_secs }
            },
            (AgentPhase::Fetching, AgentEvent::ChecksFetched(Some(response))) => {
                if response.checks.len() == 0 {
                    self.phase = AgentPhase::Idle;
                    AgentAction::AwaitTick { interval_secs: self.interval_secs }
                } else {
                    self.checks = response.checks;
                    self.cursor = 0;
                    self.results = Vec::new();
                    self.phase = AgentPhase::Examining;
                    self.examine(0)
                }
            },
            (AgentPhase::Examining, AgentEvent::Examined { observation, at }) => {
                let result = self.executor.execute(
                    &self.checks[self.cursor],
                    match &observation {
                        Some(seen) => Some(seen),
                        None => None,
                    },
                );
                self.results.push(
                    AgentCheckResult {
                        check_id: self.checks[self.cursor].id,
                        status: result.status,
                        message: result.message,
                        collected_at: at,
                    },
                );
                proof {
                    assert(self.results@.drop_last() =~= old(self).results@);
                }
                assert(self.cursor < self.checks.len());
                self.cursor = self.cursor + 1;
                if self.cursor < self.checks.len() {
                    self.examine(self.cursor)
                } else {
                    let mut results: Vec<AgentCheckResult> = Vec::new();
                    core::mem::swap(&mut self.results, &mut results);
                    self.phase = AgentPhase::Submitting;
                    match self.endpoint_id {
                        Some(endpoint_id) => AgentAction::Submit { endpoint_id, results },
                        None => AgentAction::Ignore,
                    }
                }
            },
            (AgentPhase::Submitting, AgentEvent::SubmitDone { .. }) => {
                self.phase = AgentPhase::Idle;
                AgentAction::AwaitTick { interval_secs: self.interval_secs }
            },
            _ => AgentAction::Ignore,
        }
    }
}

/// Registration does not give up: after a failure the agent waits the fixed
/// time and registers again, as it was before the failure.
pub proof fn registration_is_retried(
    before: Agent,
    waiting: Agent,
    wait: AgentAction,
    again: Agent,
    retry: AgentAction,
)
    requires
        before.phase == AgentPhase::Registering,
        stepped(before, AgentEvent::RegistrationFailed, waiting, wait),
        stepped(waiting, AgentEvent::BackoffElapsed, again, retry),
    ensures
        wait == (AgentAction::Sleep { seconds: REGISTRATION_BACKOFF_SECS }),
        retry == AgentAction::Register,
        again == before,
{
}

/// A tick goes on whether or not its heartbeat was delivered: the checks are
/// fetched next.
pub proof fn tick_survives_lost_heartbeat(
    before: Agent,
    delivered: bool,
    after: Agent,
    action: AgentAction,
)
    requires
        before.phase == AgentPhase::Heartbeating,
        stepped(before, AgentEvent::HeartbeatDone { delivered }, after, action),
    ensures
        action == AgentAction::FetchChecks,
        after.phase == AgentPhase::Fetching,
{
}

/// A batch is sent once: whether or not it was delivered, the agent waits
/// for its next tick and holds no results.
pub proof fn batch_is_sent_once(before: Agent, delivered: bool, after: Agent, action: AgentAction)
    requires
        before.phase == AgentPhase::Submitting,
        before.results@.len() == 0,
        stepped(before, AgentEvent::SubmitDone { delivered }, after, action),
    ensures
        action == (AgentAction::AwaitTick { interval_secs: before.interval_secs }),
        after.phase == AgentPhase::Idle,
        after.results@.len() == 0,
{
}

/// What an agent is configured with.
#[derive(Debug)]
pub struct Config {
    pub server_url: String,
    pub agent_secret: String,
    pub collection_interval_secs: u64,
    pub hostname_override: Option<String>,
}

/// The interval between two ticks, where none is configured: five minutes.
pub fn default_interval() -> (r: u64)
    ensures
        r == DEFAULT_INTERVAL_SECS,
{
    DEFAULT_INTERVAL_SECS
}

/// The arguments of a command line that are not options: those that do not
/// start with two hyphens, in their order.
pub open spec fn positional(args: Seq<String>) -> Seq<String>
    decreases args.len(),
{
    if args.len() == 0 {
        Seq::empty()
    } else if "--"@.is_prefix_of(args.last()@) {
        positional(args.drop_last())
    } else {
        positional(args.drop_last()).push(args.last())
    }
}

/// Why the settings of the environment give no configuration.
#[derive(Debug, Clone, Copy, PartialEq, Eq, Structural)]
pub enum ConfigError {
    /// The server's address is not set.
    MissingServerUrl,
    /// The shared secret is not set.
    MissingAgentSecret,
}

impl Config {
    /// The configuration that the settings of the environment give, each
    /// handed over as it was read. The server's address and the shared secret
    /// are required, and the address is looked at first; the interval is five
    /// minutes where none is set.
    pub fn from_env(
        server_url: Option<String>,
        agent_secret: Option<String>,
        collection_interval_secs: Option<u64>,
        hostname_override: Option<String>,
    ) -> (r: Result<Config, ConfigError>)
        ensures
            match r {
                Ok(config) => {
                    &&& server_url == Some(config.server_url)
                    &&& agent_secret == Some(config.agent_secret)
                    &&& config.collection_interval_secs == match collection_interval_secs {
                        Some(secs) => secs,
                        None => DEFAULT_INTERVAL_SECS,
                    }
                    &&& config.hostname_override == hostname_override
                },
                Err(e) => match server_url {
                    None => e == ConfigError::MissingServerUrl,
                    Some(_) => agent_secret is None && e == ConfigError::MissingAgentSecret,
                },
            },
    {
        let server_url = match server_url {
            Some(url) => url,
            None => { return Err(ConfigError::MissingServerUrl); },
        };
        let agent_secret = match agent_secret {
            Some(secret) => secret,
            None => { return Err(ConfigError::MissingAgentSecret); },
        };
        Ok(
            Config {
                server_url,
                agent_secret,
                collection_interval_secs: match collection_interval_secs {
                    Some(secs) => secs,
                    None => default_interval(),
                },
                hostname_override,
            },
        )
    }

    /// The configuration that a server address and a secret give: the
    /// default interval, and the hostname that the host tells.
    pub fn from_args(server_url: String, agent_secret: String) -> (r: Config)
        ensures
            r.server_url == server_url,
            r.agent_secret == agent_secret,
            r.collection_interval_secs == DEFAULT_INTERVAL_SECS,
            r.hostname_override is None,
    {
        Config {
            server_url,
            agent_secret,
            collection_interval_secs: default_interval(),
            hostname_override: None,
        }
    }

    /// The configuration that a command line gives, if it gives one: with
    /// the options left out, the program's name is followed by the server
    /// address and the secret.
    pub fn from_command_line(args: &Vec<String>) -> (r: Option<Config>)
        ensures
            match r {
                Some(config) => {
                    &&& positional(args@).len() >= 3
                    &&& config.server_url@ == positional(args@)[1]@
                    &&& config.agent_secret@ == positional(args@)[2]@
                    &&& config.collection_interval_secs == DEFAULT_INTERVAL_SECS
                    &&& config.hostname_override is None
                },
                None => positional(args@).len() < 3,
            },
    {
        let mut found: Vec<usize> = Vec::new();
        let mut i: usize = 0;
        assert(args@.take(0) =~= Seq::<String>::empty());
        while i < args.len()
            invariant
                i <= args.len(),
                found@.len() == positional(args@.take(i as int)).len(),
                forall|k: int|
                    0 <= k < found@.len() ==> 0 <= #[trigger] found@[k] < i && args@[found@[k] as int]
                        == positional(args@.take(i as int))[k],
            decreases args.len() - i,
        {
            proof {
                assert(args@.take(i + 1).drop_last() =~= args@.take(i as int));
                assert(args@.take(i + 1).last() == args@[i as int]);
            }
            if !starts_with_text(args[i].as_str(), "--") {
                found.push(i);
            }
            i += 1;
        }
        proof {
            assert(args@.take(args@.len() as int) =~= args@);
        }
        if found.len() >= 3 {
            Some(Config::from_args(args[found[1]].clone(), args[found[2]].clone()))
        } else {
            None
        }
    }

    /// The hostname under which the agent registers: the configured one, or
    /// else the one that the host tells.
    pub fn hostname(&self, detected: String) -> (r: String)
        ensures
            r@ == match self.hostname_override {
                Some(name) => name@,
                None => detected@,
            },
    {
        match &self.hostname_override {
            Some(name) => name.clone(),
            None => detected,
        }
    }
}

} // verus!
