//! The client agent: it keeps one account's lease alive.
//!
//! The agent is a state machine. The host performs what the agent asks
//! for (a probe of the registry, a wait, the detection of the local
//! addresses, a registration) and reports back what happened; the agent
//! says what to do next. It probes at a fixed interval until the registry
//! answers, then registers, waits for the lifetime it was granted, and
//! registers again with freshly detected addresses. A registration that
//! failed is repeated, unchanged, after the fixed interval.

use crate::client::{
    digest_of, opt_text, sha256, v4_addresses, v6_addresses, ClientInfo, ClientInfoView, IpAddress,
};
use crate::server::{PostClientInfoResponse, PostClientInfoResponseView};
use vstd::prelude::*;
use vstd::string::*;

verus! {

/// The seconds between a failure and the next attempt.
pub const SLEEP_SECONDS: u64 = 1;

/// Where the agent stands.
#[derive(Debug)]
pub enum AgentPhase {
    /// The registry has not answered a probe yet.
    Probing,
    /// The registry is there; no registration is under way.
    Connected,
    /// A registration of this record is under way.
    Registering(ClientInfo),
    /// The registration of this record failed and will be repeated.
    Retrying(ClientInfo),
    /// The local addresses could not be detected: the agent has given up.
    Stopped,
}

/// The mathematical value of an [`AgentPhase`].
pub enum AgentPhaseView {
    Probing,
    Connected,
    Registering(ClientInfoView),
    Retrying(ClientInfoView),
    Stopped,
}

impl View for AgentPhase {
    type V = AgentPhaseView;

    open spec fn view(&self) -> AgentPhaseView {
        match *self {
            AgentPhase::Probing => AgentPhaseView::Probing,
            AgentPhase::Connected => AgentPhaseView::Connected,
            AgentPhase::Registering(record) => AgentPhaseView::Registering(record@),
            AgentPhase::Retrying(record) => AgentPhaseView::Retrying(record@),
            AgentPhase::Stopped => AgentPhaseView::Stopped,
        }
    }
}

/// What the host reports.
#[derive(Debug)]
pub enum AgentEvent {
    /// The registry answered a probe.
    ProbeSucceeded,
    /// A probe got no answer.
    ProbeFailed,
    /// The local addresses, as detected.
    Detected(Vec<IpAddress>),
    /// The local addresses could not be detected.
    DetectFailed,
    /// The registry answered a registration.
    Posted(PostClientInfoResponse),
    /// A registration got no answer.
    PostFailed,
    /// The wait that was asked for is over.
    Waited,
}

/// The mathematical value of an [`AgentEvent`].
pub enum AgentEventView {
    ProbeSucceeded,
    ProbeFailed,
    Detected(Seq<IpAddress>),
    DetectFailed,
    Posted(PostClientInfoResponseView),
    PostFailed,
    Waited,
}

impl View for AgentEvent {
    type V = AgentEventView;

    open spec fn view(&self) -> AgentEventView {
        match *self {
            AgentEvent::ProbeSucceeded => AgentEventView::ProbeSucceeded,
            AgentEvent::ProbeFailed => AgentEventView::ProbeFailed,
            AgentEvent::Detected(ips) => AgentEventView::Detected(ips@),
            AgentEvent::DetectFailed => AgentEventView::DetectFailed,
            AgentEvent::Posted(resp) => AgentEventView::Posted(resp@),
            AgentEvent::PostFailed => AgentEventView::PostFailed,
            AgentEvent::Waited => AgentEventView::Waited,
        }
    }
}

/// What the agent asks the host to do.
#[derive(Debug)]
pub enum AgentAction {
    /// Ask the registry who it is, and report `ProbeSucceeded` or
    /// `ProbeFailed`.
    Probe,
    /// Let this many seconds pass, and report `Waited`.
    Wait(u64),
    /// Detect the local addresses, and report `Detected` or `DetectFailed`.
    Detect,
    /// Register this record, and report `Posted` or `PostFailed`.
    Post(ClientInfo),
    /// End the process.
    Stop,
    /// Nothing: the report was not one that the agent was waiting for.
    Nothing,
}

/// The mathematical value of an [`AgentAction`].
pub enum AgentActionView {
    Probe,
    Wait(u64),
    Detect,
    Post(ClientInfoView),
    Stop,
    Nothing,
}

impl View for AgentAction {
    type V = AgentActionView;

    open spec fn view(&self) -> AgentActionView {
        match *self {
            AgentAction::Probe => AgentActionView::Probe,
            AgentAction::Wait(seconds) => AgentActionView::Wait(seconds),
            AgentAction::Detect => AgentActionView::Detect,
            AgentAction::Post(record) => AgentActionView::Post(record@),
            AgentAction::Stop => AgentActionView::Stop,
            AgentAction::Nothing => AgentActionView::Nothing,
        }
    }
}

/// The agent of one account for one run of the process.
#[derive(Debug)]
pub struct Agent {
    id: u128,
    account: String,
    passwd: Option<String>,
    phase: AgentPhase,
}

/// The mathematical value of an [`Agent`]: the session identifier, the
/// account, the digest of its password if it has one, and the phase.
pub struct AgentView {
    pub id: u128,
    pub account: Seq<char>,
    pub passwd: Option<Seq<char>>,
    pub phase: AgentPhaseView,
}

impl View for Agent {
    type V = AgentView;

    closed spec fn view(&self) -> AgentView {
        AgentView {
            id: self.id,
            account: self.account@,
            passwd: opt_text(self.passwd),
            phase: self.phase@,
        }
    }
}

/// The record that the agent registers when it was seen at `ips`.
pub open spec fn record_of(agent: AgentView, ips: Seq<IpAddress>) -> ClientInfoView {
    ClientInfoView {
        id: agent.id,
        account: agent.account,
        passwd: agent.passwd,
        ipv4s: v4_addresses(ips),
        ipv6s: v6_addresses(ips),
    }
}

/// The agent after `event`, and what it asks for.
///
/// While probing, a failure asks for a wait of the fixed interval, the
/// end of a wait for the next probe, and an answer for the detection of
/// the addresses. Once connected, the addresses make the record that is
/// registered, and a failed detection ends the agent. An answer to the
/// registration that is ok asks for a wait of the lifetime granted, after
/// which the addresses are detected anew; any other answer, or none,
/// asks for a wait of the fixed interval, after which the same record is
/// registered again. Every other report leaves the agent as it is and asks
/// for nothing.
pub open spec fn agent_step(agent: AgentView, event: AgentEventView) -> (
    AgentView,
    AgentActionView,
) {
    match (agent.phase, event) {
        (AgentPhaseView::Probing, AgentEventView::ProbeFailed) => (
            agent,
            AgentActionView::Wait(SLEEP_SECONDS),
        ),
        (AgentPhaseView::Probing, AgentEventView::Waited) => (agent, AgentActionView::Probe),
        (AgentPhaseView::Probing, AgentEventView::ProbeSucceeded) => (
            AgentView { phase: AgentPhaseView::Connected, ..agent },
            AgentActionView::Detect,
        ),
        (AgentPhaseView::Connected, AgentEventView::Detected(ips)) => (
            AgentView { phase: AgentPhaseView::Registering(record_of(agent, ips)), ..agent },
            AgentActionView::Post(record_of(agent, ips)),
        ),
        (AgentPhaseView::Connected, AgentEventView::DetectFailed) => (
            AgentView { phase: AgentPhaseView::Stopped, ..agent },
            AgentActionView::Stop,
        ),
        (AgentPhaseView::Connected, AgentEventView::Waited) => (agent, AgentActionView::Detect),
        (AgentPhaseView::Registering(record), AgentEventView::Posted(resp)) => if resp.is_ok {
            (
                AgentView { phase: AgentPhaseView::Connected, ..agent },
                AgentActionView::Wait(resp.lifetime),
            )
        } else {
            (
                AgentView { phase: AgentPhaseView::Retrying(record), ..agent },
                AgentActionView::Wait(SLEEP_SECONDS),
            )
        },
        (AgentPhaseView::Registering(record), AgentEventView::PostFailed) => (
            AgentView { phase: AgentPhaseView::Retrying(record), ..agent },
            AgentActionView::Wait(SLEEP_SECONDS),
        ),
        (AgentPhaseView::Retrying(record), AgentEventView::Waited) => (
            AgentView { phase: AgentPhaseView::Registering(record), ..agent },
            AgentActionView::Post(record),
        ),
        _ => (agent, AgentActionView::Nothing),
    }
}

fn copy_digest(digest: &Option<String>) -> (copy: Option<String>)
    ensures
        opt_text(copy) == opt_text(*digest),
{
    match digest {
        Some(d) => Some(d.clone()),
        None => None,
    }
}

impl Agent {
    /// An agent of `account` for the session `id` that carries `digest`
    /// as the digest of its password. It is probing, and the first thing
    /// it asks for is a probe.
    pub fn start(id: u128, account: &str, digest: Option<String>) -> (begin: (Agent, AgentAction))
        ensures
            begin.0@ == (AgentView {
                id,
                account: account@,
                passwd: opt_text(digest),
                phase: AgentPhaseView::Probing,
            }),
            begin.1@ == AgentActionView::Probe,
    {
        let account = account.to_owned();
        (Agent { id, account, passwd: digest, phase: AgentPhase::Probing }, AgentAction::Probe)
    }

    /// An agent of `account` for a session with a random identifier. The
    /// password, if there is one, is digested here, once, and only the
    /// digest is kept.
    pub fn new(account: &str, passwd_plaintext: &Option<String>) -> (begin: (Agent, AgentAction))
        ensures
            begin.0@.account == account@,
            begin.0@.passwd == digest_of(opt_text(*passwd_plaintext)),
            begin.0@.phase == AgentPhaseView::Probing,
            begin.1@ == AgentActionView::Probe,
    {
        let digest = match passwd_plaintext {
            Some(plaintext) => Some(sha256(plaintext.as_str())),
            None => None,
        };
        Self::start(random_session_id(), account, digest)
    }

    /// Takes in what the host reports and says what to do next.
    pub fn step(self, event: AgentEvent) -> (next: (Agent, AgentAction))
        ensures
            (next.0@, next.1@) == agent_step(self@, event@),
    {
        let Agent { id, account, passwd, phase } = self;
        match (phase, event) {
            (AgentPhase::Probing, AgentEvent::ProbeFailed) => (
                Agent { id, account, passwd, phase: AgentPhase::Probing },
                AgentAction::Wait(SLEEP_SECONDS),
            ),
            (AgentPhase::Probing, AgentEvent::Waited) => (
                Agent { id, account, passwd, phase: AgentPhase::Probing },
                AgentAction::Probe,
            ),
            (AgentPhase::Probing, AgentEvent::ProbeSucceeded) => (
                Agent { id, account, passwd, phase: AgentPhase::Connected },
                AgentAction::Detect,
            ),
            (AgentPhase::Connected, AgentEvent::Detected(ips)) => {
                let bare = ClientInfo::with_digest(id, account.as_str(), copy_digest(&passwd));
                let record = bare.set_ips(&ips);
                let kept = record.clone();
                (
                    Agent { id, account, passwd, phase: AgentPhase::Registering(kept) },
                    AgentAction::Post(record),
                )
            },
            (AgentPhase::Connected, AgentEvent::DetectFailed) => (
                Agent { id, account, passwd, phase: AgentPhase::Stopped },
                AgentAction::Stop,
            ),
            (AgentPhase::Connected, AgentEvent::Waited) => (
                Agent { id, account, passwd, phase: AgentPhase::Connected },
                AgentAction::Detect,
            ),
            (AgentPhase::Registering(record), AgentEvent::Posted(resp)) => {
                if resp.is_ok() {
                    (
                        Agent { id, account, passwd, phase: AgentPhase::Connected },
                        AgentAction::Wait(resp.lifetime()),
                    )
                } else {
                    (
                        Agent { id, account, passwd, phase: AgentPhase::Retrying(record) },
                        AgentAction::Wait(SLEEP_SECONDS),
                    )
                }
            },
            (AgentPhase::Registering(record), AgentEvent::PostFailed) => (
                Agent { id, account, passwd, phase: AgentPhase::Retrying(record) },
                AgentAction::Wait(SLEEP_SECONDS),
            ),
            (AgentPhase::Retrying(record), AgentEvent::Waited) => {
                let kept = record.clone();
                (
                    Agent { id, account, passwd, phase: AgentPhase::Registering(kept) },
                    AgentAction::Post(record),
                )
            },
            (phase, _) => (Agent { id, account, passwd, phase }, AgentAction::Nothing),
        }
    }

    /// The phase the agent is in.
    pub fn phase(&self) -> (phase: &AgentPhase)
        ensures
            phase@ == self@.phase,
    {
        &self.phase
    }

    /// The identifier of the session.
    pub fn id(&self) -> (id: u128)
        ensures
            id == self@.id,
    {
        self.id
    }
}

/// Calls `rand::random` for a `u128`.
///
/// Trusted: nothing is claimed of the result. The call panics where the
/// generator of the thread cannot be seeded from the system.
#[verifier::external_body]
fn random_session_id() -> u128 {
    rand::random()
}

/// What a run of reports has come to: the agent after them, the probes it
/// asked for on the way, and the seconds of waiting it asked for.
pub struct Run {
    pub agent: AgentView,
    pub probes: nat,
    pub waited: nat,
}

/// The run of `agent` over `events`, one report after the other.
pub open spec fn run(agent: AgentView, events: Seq<AgentEventView>) -> Run
    decreases events.len(),
{
    if events.len() == 0 {
        Run { agent, probes: 0, waited: 0 }
    } else {
        let before = run(agent, events.drop_last());
        let (after, action) = agent_step(before.agent, events.last());
        Run {
            agent: after,
            probes: before.probes + if action is Probe {
                1nat
            } else {
                0nat
            },
            waited: before.waited + match action {
                AgentActionView::Wait(seconds) => seconds as nat,
                _ => 0nat,
            },
        }
    }
}

/// What the host reports while the registry fails `n` probes in a row:
/// each time the failure, and then the end of the wait that the agent
/// asked for.
pub open spec fn failed_probes(n: nat) -> Seq<AgentEventView>
    decreases n,
{
    if n == 0 {
        Seq::empty()
    } else {
        failed_probes((n - 1) as nat).push(AgentEventView::ProbeFailed).push(
            AgentEventView::Waited,
        )
    }
}

/// While the registry fails `n` probes in a row, a probing agent stays as
/// it is, asks for one more probe after each failure, and asks for `n`
/// waits of the fixed interval.
pub proof fn lemma_probing_persists(agent: AgentView, n: nat)
    requires
        agent.phase == AgentPhaseView::Probing,
    ensures
        run(agent, failed_probes(n)) == (Run {
            agent,
            probes: n,
            waited: n * SLEEP_SECONDS as nat,
        }),
    decreases n,
{
    if n > 0 {
        let shorter = failed_probes((n - 1) as nat);
        let failed = shorter.push(AgentEventView::ProbeFailed);
        let events = failed.push(AgentEventView::Waited);
        lemma_probing_persists(agent, (n - 1) as nat);
        assert(failed.drop_last() == shorter);
        assert(run(agent, failed) == (Run {
            agent,
            probes: (n - 1) as nat,
            waited: ((n - 1) * SLEEP_SECONDS + SLEEP_SECONDS) as nat,
        }));
        assert(events.drop_last() == failed);
    }
}

/// An agent whose first `n` probes fail and whose next one is answered is
/// connected after that answer and asks for the detection of the
/// addresses. It has then asked for `n` probes beside its first one, so
/// that the answered probe is probe `n + 1`, and for `n` times the fixed
/// interval of waiting, and for no more.
pub proof fn lemma_retry_convergence(agent: AgentView, n: nat)
    requires
        agent.phase == AgentPhaseView::Probing,
    ensures
        run(agent, failed_probes(n).push(AgentEventView::ProbeSucceeded)) == (Run {
            agent: AgentView { phase: AgentPhaseView::Connected, ..agent },
            probes: n,
            waited: n * SLEEP_SECONDS as nat,
        }),
        agent_step(agent, AgentEventView::ProbeSucceeded).1 == AgentActionView::Detect,
{
    lemma_probing_persists(agent, n);
    let events = failed_probes(n).push(AgentEventView::ProbeSucceeded);
    assert(events.drop_last() == failed_probes(n));
}

} // verus!
