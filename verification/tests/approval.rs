use chamber_agent::approval::{outcome_result, ApprovalBridge, ApprovalState};
use chamber_agent::protocol::{
    AgentEvent, ApprovalDecision, ApprovalRequest, HostMessage, HostPayload, Outcome, Payload,
};
use chamber_agent::runtime_server::{read_host_message, ReaderStep};

fn decision(id: &str, outcome: Option<Outcome>) -> ApprovalDecision {
    ApprovalDecision { tool_call_id: id.to_owned(), outcome }
}

#[test]
fn outcomes() {
    assert_eq!(outcome_result(Some(Outcome::Approved)), Ok(()));
    assert_eq!(outcome_result(Some(Outcome::Denied("no".to_owned()))), Err("no".to_owned()));
    assert_eq!(outcome_result(None), Err("No decision provided".to_owned()));
}

#[test]
fn decision_reaches_waiting_call_once() {
    let mut state: ApprovalState<u32> = ApprovalState::new();
    assert_eq!(state.register("call-1".to_owned(), 1), None);
    assert_eq!(state.register("call-2".to_owned(), 2), None);
    assert_eq!(
        state.handle_decision(decision("call-1", Some(Outcome::Approved))),
        Some((1, Ok(())))
    );
    assert_eq!(state.handle_decision(decision("call-1", Some(Outcome::Approved))), None);
    assert_eq!(
        state.handle_decision(decision("call-2", Some(Outcome::Denied("too big".to_owned())))),
        Some((2, Err("too big".to_owned())))
    );
    assert_eq!(state.handle_decision(decision("call-3", None)), None);
}

#[test]
fn registering_twice_displaces() {
    let mut state: ApprovalState<u32> = ApprovalState::new();
    assert_eq!(state.register("c".to_owned(), 1), None);
    assert_eq!(state.register("c".to_owned(), 2), Some(1));
    assert_eq!(state.handle_decision(decision("c", None)), Some((2, Err("No decision provided".to_owned()))));
}

#[test]
fn cancel_all_forgets_every_call() {
    let mut state: ApprovalState<u32> = ApprovalState::new();
    state.register("a".to_owned(), 1);
    state.register("b".to_owned(), 2);
    state.cancel_all();
    assert_eq!(state.handle_decision(decision("a", Some(Outcome::Approved))), None);
    assert_eq!(state.handle_decision(decision("b", Some(Outcome::Approved))), None);
}

#[test]
fn bridge_events() {
    let bridge = ApprovalBridge::new("session-7".to_owned(), ());
    assert_eq!(
        bridge.emit(Payload::Started),
        AgentEvent { session_id: "session-7".to_owned(), payload: Some(Payload::Started) }
    );
    let mut state: ApprovalState<u32> = ApprovalState::new();
    let (event, displaced) = bridge.request_approval(
        &mut state,
        "call-9".to_owned(),
        "lens_upsert".to_owned(),
        "{}".to_owned(),
        9,
    );
    assert_eq!(displaced, None);
    assert_eq!(
        event,
        AgentEvent {
            session_id: "session-7".to_owned(),
            payload: Some(Payload::ApprovalRequest(ApprovalRequest {
                tool_call_id: "call-9".to_owned(),
                tool_name: "lens_upsert".to_owned(),
                arguments_json: "{}".to_owned(),
            })),
        }
    );
    assert_eq!(bridge.abandon_approval(&mut state, &"call-9".to_owned()), Some(9));
    assert_eq!(bridge.abandon_approval(&mut state, &"call-9".to_owned()), None);
}

#[test]
fn reader_takes_decisions_and_stops_on_failure() {
    let mut state: ApprovalState<u32> = ApprovalState::new();
    state.register("x".to_owned(), 5);
    let prompt = HostMessage { session_id: "s".to_owned(), payload: Some(HostPayload::Prompt("hi".to_owned())) };
    assert!(matches!(read_host_message::<u32, ()>(&mut state, Ok(prompt)), ReaderStep::Continue(None)));
    let answer = HostMessage {
        session_id: "s".to_owned(),
        payload: Some(HostPayload::ApprovalDecision(decision("x", Some(Outcome::Approved)))),
    };
    match read_host_message::<u32, ()>(&mut state, Ok(answer)) {
        ReaderStep::Continue(Some((5, Ok(())))) => {}
        _ => panic!("decision not delivered"),
    }
    state.register("y".to_owned(), 6);
    assert!(matches!(read_host_message::<u32, &str>(&mut state, Err("broken")), ReaderStep::Stop));
    assert_eq!(state.handle_decision(decision("y", None)), None);
}
