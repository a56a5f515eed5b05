use here::agent::{Agent, AgentAction, AgentEvent, AgentPhase, SLEEP_SECONDS};
use here::client::{ClientInfo, IpAddress};
use here::server::{PostClientInfoResponse, ResponseMessage};

const SECRET_DIGEST: &str = "2bb80d537b1da3e38bd30361aa855686bde0eacd7162fef6a25fe97bf527a25b";

fn is_probe(action: &AgentAction) -> bool {
    matches!(action, AgentAction::Probe)
}

fn connected(id: u128, account: &str, digest: Option<String>) -> Agent {
    let (agent, _) = Agent::start(id, account, digest);
    let (agent, action) = agent.step(AgentEvent::ProbeSucceeded);
    assert!(matches!(action, AgentAction::Detect));
    agent
}

fn granted(lifetime: u64) -> PostClientInfoResponse {
    PostClientInfoResponse::new(1, "alice", None).set_ok(true).set_lifetime(lifetime)
}

fn refused() -> PostClientInfoResponse {
    PostClientInfoResponse::new(1, "alice", None).set_message(Some(ResponseMessage::DatabaseError))
}

fn posted(action: AgentAction) -> ClientInfo {
    match action {
        AgentAction::Post(record) => record,
        other => panic!("the agent asked for {:?}", other),
    }
}

#[test]
fn agent_begins_with_a_probe() {
    let (agent, action) = Agent::start(5, "alice", None);
    assert!(is_probe(&action));
    assert!(matches!(agent.phase(), AgentPhase::Probing));
    assert_eq!(agent.id(), 5);
}

#[test]
fn retry_delay_is_one_second() {
    assert_eq!(SLEEP_SECONDS, 1);
}

#[test]
fn probe_loop_converges_after_three_failures() {
    let (mut agent, first) = Agent::start(5, "alice", None);
    assert!(is_probe(&first));
    let mut probes = 1;
    let mut waited = 0;
    for _ in 0..3 {
        let (next, action) = agent.step(AgentEvent::ProbeFailed);
        match action {
            AgentAction::Wait(seconds) => waited += seconds,
            other => panic!("the agent asked for {:?}", other),
        }
        assert!(matches!(next.phase(), AgentPhase::Probing));
        let (next, action) = next.step(AgentEvent::Waited);
        assert!(is_probe(&action));
        probes += 1;
        agent = next;
    }
    let (agent, action) = agent.step(AgentEvent::ProbeSucceeded);
    assert!(matches!(action, AgentAction::Detect));
    assert!(matches!(agent.phase(), AgentPhase::Connected));
    assert_eq!(probes, 4);
    assert_eq!(waited, 3);
}

#[test]
fn probe_answered_at_once_needs_no_wait() {
    let (agent, _) = Agent::start(5, "alice", None);
    let (agent, action) = agent.step(AgentEvent::ProbeSucceeded);
    assert!(matches!(action, AgentAction::Detect));
    assert!(matches!(agent.phase(), AgentPhase::Connected));
}

#[test]
fn detected_addresses_make_the_record() {
    let agent = connected(5, "bob", Some(String::from("digest")));
    let ips = vec![IpAddress::V6([9; 16]), IpAddress::V4([10, 0, 0, 7])];
    let (agent, action) = agent.step(AgentEvent::Detected(ips.clone()));
    let expected = ClientInfo::with_digest(5, "bob", Some(String::from("digest"))).set_ips(&ips);
    assert_eq!(posted(action), expected);
    match agent.phase() {
        AgentPhase::Registering(record) => assert_eq!(record, &expected),
        other => panic!("the agent is {:?}", other),
    }
}

#[test]
fn granted_registration_waits_for_the_lifetime_and_detects_anew() {
    let agent = connected(5, "alice", None);
    let (agent, _) = agent.step(AgentEvent::Detected(vec![IpAddress::V4([10, 0, 0, 7])]));
    let (agent, action) = agent.step(AgentEvent::Posted(granted(60)));
    assert!(matches!(action, AgentAction::Wait(60)));
    assert!(matches!(agent.phase(), AgentPhase::Connected));
    let (agent, action) = agent.step(AgentEvent::Waited);
    assert!(matches!(action, AgentAction::Detect));
    let (agent, action) = agent.step(AgentEvent::Detected(vec![IpAddress::V4([10, 0, 0, 8])]));
    let record = posted(action);
    assert_eq!(record.ipv4s, vec![[10, 0, 0, 8]]);
    assert_eq!(record.id, 5);
    assert_eq!(agent.id(), 5);
}

#[test]
fn granted_lifetime_is_waited_for_exactly() {
    for lifetime in [0, 1, 5, u64::MAX] {
        let agent = connected(5, "alice", None);
        let (agent, _) = agent.step(AgentEvent::Detected(Vec::new()));
        let (_, action) = agent.step(AgentEvent::Posted(granted(lifetime)));
        match action {
            AgentAction::Wait(seconds) => assert_eq!(seconds, lifetime),
            other => panic!("the agent asked for {:?}", other),
        }
    }
}

#[test]
fn failed_registration_is_repeated_unchanged_after_the_delay() {
    let agent = connected(5, "alice", None);
    let (agent, action) = agent.step(AgentEvent::Detected(vec![IpAddress::V4([10, 0, 0, 7])]));
    let record = posted(action);
    let (agent, action) = agent.step(AgentEvent::PostFailed);
    assert!(matches!(action, AgentAction::Wait(1)));
    match agent.phase() {
        AgentPhase::Retrying(kept) => assert_eq!(kept, &record),
        other => panic!("the agent is {:?}", other),
    }
    let (agent, action) = agent.step(AgentEvent::Waited);
    assert_eq!(posted(action), record);
    assert!(matches!(agent.phase(), AgentPhase::Registering(_)));
    let (agent, action) = agent.step(AgentEvent::PostFailed);
    assert!(matches!(action, AgentAction::Wait(1)));
    let (agent, action) = agent.step(AgentEvent::Waited);
    assert_eq!(posted(action), record);
    let (agent, action) = agent.step(AgentEvent::Posted(granted(60)));
    assert!(matches!(action, AgentAction::Wait(60)));
    assert!(matches!(agent.phase(), AgentPhase::Connected));
}

#[test]
fn registration_that_the_registry_turns_down_is_repeated_too() {
    let agent = connected(5, "alice", None);
    let (agent, action) = agent.step(AgentEvent::Detected(Vec::new()));
    let record = posted(action);
    let (agent, action) = agent.step(AgentEvent::Posted(refused()));
    assert!(matches!(action, AgentAction::Wait(1)));
    assert!(matches!(agent.phase(), AgentPhase::Retrying(_)));
    let (_, action) = agent.step(AgentEvent::Waited);
    assert_eq!(posted(action), record);
}

#[test]
fn failed_detection_ends_the_agent() {
    let agent = connected(5, "alice", None);
    let (agent, action) = agent.step(AgentEvent::DetectFailed);
    assert!(matches!(action, AgentAction::Stop));
    assert!(matches!(agent.phase(), AgentPhase::Stopped));
    let (agent, action) = agent.step(AgentEvent::Waited);
    assert!(matches!(action, AgentAction::Nothing));
    assert!(matches!(agent.phase(), AgentPhase::Stopped));
}

#[test]
fn report_that_was_not_waited_for_changes_nothing() {
    let (agent, _) = Agent::start(5, "alice", None);
    let (agent, action) = agent.step(AgentEvent::Posted(granted(60)));
    assert!(matches!(action, AgentAction::Nothing));
    assert!(matches!(agent.phase(), AgentPhase::Probing));
    let (agent, action) = agent.step(AgentEvent::Detected(Vec::new()));
    assert!(matches!(action, AgentAction::Nothing));
    let (agent, action) = agent.step(AgentEvent::DetectFailed);
    assert!(matches!(action, AgentAction::Nothing));
    let (agent, action) = agent.step(AgentEvent::PostFailed);
    assert!(matches!(action, AgentAction::Nothing));
    assert!(matches!(agent.phase(), AgentPhase::Probing));

    let agent = connected(5, "alice", None);
    let (agent, action) = agent.step(AgentEvent::ProbeFailed);
    assert!(matches!(action, AgentAction::Nothing));
    let (agent, action) = agent.step(AgentEvent::ProbeSucceeded);
    assert!(matches!(action, AgentAction::Nothing));
    assert!(matches!(agent.phase(), AgentPhase::Connected));

    let (agent, _) = agent.step(AgentEvent::Detected(Vec::new()));
    let (agent, action) = agent.step(AgentEvent::Waited);
    assert!(matches!(action, AgentAction::Nothing));
    assert!(matches!(agent.phase(), AgentPhase::Registering(_)));
    let (agent, _) = agent.step(AgentEvent::PostFailed);
    let (agent, action) = agent.step(AgentEvent::PostFailed);
    assert!(matches!(action, AgentAction::Nothing));
    assert!(matches!(agent.phase(), AgentPhase::Retrying(_)));
}

#[test]
fn new_agent_keeps_the_digest_of_its_password() {
    let (agent, action) = Agent::new("bob", &Some(String::from("secret")));
    assert!(is_probe(&action));
    let id = agent.id();
    let (agent, _) = agent.step(AgentEvent::ProbeSucceeded);
    let (_, action) = agent.step(AgentEvent::Detected(Vec::new()));
    assert_eq!(posted(action), ClientInfo::with_digest(id, "bob", Some(String::from(SECRET_DIGEST))));
}

#[test]
fn new_agent_without_password_registers_without_one() {
    let (agent, _) = Agent::new("alice", &None);
    let id = agent.id();
    let (agent, _) = agent.step(AgentEvent::ProbeSucceeded);
    let (_, action) = agent.step(AgentEvent::Detected(Vec::new()));
    assert_eq!(posted(action), ClientInfo::new(id, "alice"));
}

#[test]
fn session_identifier_stays_for_the_run() {
    let (agent, _) = Agent::new("alice", &None);
    let id = agent.id();
    let (agent, _) = agent.step(AgentEvent::ProbeSucceeded);
    let (agent, action) = agent.step(AgentEvent::Detected(Vec::new()));
    assert_eq!(posted(action).id, id);
    let (agent, _) = agent.step(AgentEvent::Posted(granted(1)));
    let (agent, _) = agent.step(AgentEvent::Waited);
    let (agent, action) = agent.step(AgentEvent::Detected(Vec::new()));
    assert_eq!(posted(action).id, id);
    assert_eq!(agent.id(), id);
}
