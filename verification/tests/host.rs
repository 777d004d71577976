use chamber_agent::agent_runtime::{chat_event, ChatEvent, ChatEventPayload, WireEvent, WirePayload};
use chamber_agent::chat_session::{
    already_finished, cancelled, check_message, ended_without_completion, next_event_step, ui_event, ActiveRequests,
    ChatUiEvent, EventStep,
};
use chamber_agent::sidecar_process::{
    announced_port, exit_outcome, launch_step, stop_step, LaunchStep, ReadinessFailure, SidecarConnection,
    SidecarEvent, StopStep,
};
use chamber_agent::smoke::{cancel_probe, collect_reply, ended_before_cancellation, CancelProbe, Transcript};

#[test]
fn wire_events_become_chat_events() {
    let e = WireEvent { session_id: "s".to_owned(), payload: Some(WirePayload::TextDelta("hi".to_owned())) };
    assert_eq!(
        chat_event(e),
        Ok(ChatEvent { session_id: "s".to_owned(), payload: ChatEventPayload::TextDelta("hi".to_owned()) })
    );
    let e = WireEvent {
        session_id: "s".to_owned(),
        payload: Some(WirePayload::Error { code: "X".to_owned(), message: "m".to_owned(), retryable: true }),
    };
    assert_eq!(
        chat_event(e).unwrap().payload,
        ChatEventPayload::RuntimeError { code: "X".to_owned(), message: "m".to_owned(), retryable: true }
    );
    let e = WireEvent { session_id: "s".to_owned(), payload: None };
    assert_eq!(chat_event(e), Err("agent event has no payload".to_owned()));
}

#[test]
fn ui_events_and_terminal_events() {
    let ev = |p| ChatEvent { session_id: "s".to_owned(), payload: p };
    assert_eq!(ui_event(ev(ChatEventPayload::Started)), (ChatUiEvent::Started { session_id: "s".to_owned() }, false));
    assert_eq!(
        ui_event(ev(ChatEventPayload::TextDelta("t".to_owned()))),
        (ChatUiEvent::TextDelta { session_id: "s".to_owned(), text: "t".to_owned() }, false)
    );
    assert_eq!(ui_event(ev(ChatEventPayload::Completed)), (ChatUiEvent::Completed { session_id: "s".to_owned() }, true));
    assert_eq!(
        ui_event(ev(ChatEventPayload::RuntimeError { code: "c".to_owned(), message: "m".to_owned(), retryable: false })),
        (
            ChatUiEvent::Error { session_id: "s".to_owned(), code: "c".to_owned(), message: "m".to_owned(), retryable: false },
            true
        )
    );
    assert_eq!(cancelled("s".to_owned()), ChatUiEvent::Cancelled { session_id: "s".to_owned() });
}

#[test]
fn messages_need_session_and_prompt() {
    assert_eq!(check_message("  ", "hi"), Err("session_id cannot be empty".to_owned()));
    assert_eq!(check_message("s", " \n"), Err("prompt cannot be empty".to_owned()));
    assert_eq!(check_message("s", "hi"), Ok(()));
    assert_eq!(ended_without_completion(), "chat stream ended without a completed event");
}

#[test]
fn one_request_per_session_and_one_cancellation() {
    let mut active: ActiveRequests<u8> = ActiveRequests::new();
    let s = "chat-1".to_owned();
    assert_eq!(active.begin(&s, 1), Ok(()));
    assert_eq!(active.begin(&s, 2), Err("session \"chat-1\" already has an active request".to_owned()));
    assert_eq!(active.cancel(&s), Ok(1));
    assert_eq!(active.cancel(&s), Err("session \"chat-1\" is already cancelling".to_owned()));
    active.finish(&s);
    assert_eq!(active.cancel(&s), Err("session \"chat-1\" has no active request".to_owned()));
    assert_eq!(active.begin(&s, 3), Ok(()));
    assert_eq!(already_finished("chat-1"), "session \"chat-1\" already finished");
}

#[test]
fn connection_endpoint_and_token() {
    let c = SidecarConnection::new(6000, "tok".to_owned());
    assert_eq!(c.endpoint(), "http://127.0.0.1:6000");
    assert_eq!(c.auth_token(), "tok");
}

#[test]
fn announced_ports() {
    assert_eq!(announced_port("READY 4321\n", 11), Ok(4321));
    assert_eq!(announced_port("", 0), Err(ReadinessFailure::Exited));
    assert_eq!(
        announced_port("oops\n", 5),
        Err(ReadinessFailure::Invalid("invalid sidecar readiness: \"oops\\n\"".to_owned()))
    );
    assert_eq!(
        announced_port("READY 99999\n", 12),
        Err(ReadinessFailure::Invalid("invalid sidecar port: number too large to fit in target type".to_owned()))
    );
}

#[test]
fn launch_steps() {
    assert_eq!(launch_step(SidecarEvent::Stdout(b"READY 7000\n".to_vec())), LaunchStep::Ready(7000));
    assert_eq!(
        launch_step(SidecarEvent::Stdout(b"booting\n".to_vec())),
        LaunchStep::Fail("invalid sidecar readiness: \"booting\\n\"".to_owned())
    );
    assert_eq!(
        launch_step(SidecarEvent::Stdout(b"READY \n".to_vec())),
        LaunchStep::Fail("invalid sidecar readiness: \"READY \\n\"".to_owned())
    );
    assert_eq!(
        launch_step(SidecarEvent::Stdout(b"READY x\n".to_vec())),
        LaunchStep::Fail("invalid digit found in string".to_owned())
    );
    assert_eq!(
        launch_step(SidecarEvent::Stdout(vec![0xff, 0x0a])),
        LaunchStep::Fail("invalid utf-8 sequence of 1 bytes from index 0".to_owned())
    );
    assert_eq!(launch_step(SidecarEvent::Stderr(b"warn".to_vec())), LaunchStep::Log(b"warn".to_vec()));
    assert_eq!(launch_step(SidecarEvent::Error("boom".to_owned())), LaunchStep::Fail("boom".to_owned()));
    assert_eq!(
        launch_step(SidecarEvent::Terminated(Some(2))),
        LaunchStep::Fail("sidecar exited before becoming ready: Some(2)".to_owned())
    );
    assert_eq!(
        launch_step(SidecarEvent::Closed),
        LaunchStep::Fail("sidecar closed before becoming ready".to_owned())
    );
    assert_eq!(launch_step(SidecarEvent::Other), LaunchStep::Wait);
}

#[test]
fn stop_steps() {
    assert_eq!(stop_step(SidecarEvent::Terminated(None)), StopStep::Exited(None));
    assert_eq!(stop_step(SidecarEvent::Stdout(vec![1])), StopStep::Wait);
    assert_eq!(stop_step(SidecarEvent::Closed), StopStep::Fail("sidecar event stream closed".to_owned()));
    assert_eq!(exit_outcome(Some(0)), Ok(()));
    assert_eq!(exit_outcome(Some(1)), Err("sidecar exited with status Some(1)".to_owned()));
    assert_eq!(exit_outcome(None), Err("sidecar exited with status None".to_owned()));
    assert_eq!(exit_outcome(Some(-1)), Err("sidecar exited with status Some(-1)".to_owned()));
    assert_eq!(
        exit_outcome(Some(i32::MIN)),
        Err(format!("sidecar exited with status {:?}", Some(i32::MIN)))
    );
    assert_eq!(
        launch_step(SidecarEvent::Terminated(Some(i32::MAX))),
        LaunchStep::Fail(format!("sidecar exited before becoming ready: {:?}", Some(i32::MAX)))
    );
}

#[test]
fn smoke_reply_is_the_text_deltas() {
    let events = vec![
        ChatEventPayload::Started,
        ChatEventPayload::TextDelta("concurrent ".to_owned()),
        ChatEventPayload::TextDelta("sidecars work".to_owned()),
        ChatEventPayload::Completed,
    ];
    assert_eq!(collect_reply(&events), Ok("concurrent sidecars work".to_owned()));
    let unfinished = vec![ChatEventPayload::Started, ChatEventPayload::TextDelta("half".to_owned())];
    assert_eq!(collect_reply(&unfinished), Err("chat ended without a completed event".to_owned()));
    let failing = vec![
        ChatEventPayload::TextDelta("a".to_owned()),
        ChatEventPayload::RuntimeError { code: "E".to_owned(), message: "bad".to_owned(), retryable: false },
        ChatEventPayload::Completed,
    ];
    assert_eq!(collect_reply(&failing), Err("E: bad".to_owned()));
    let mut t = Transcript::new();
    assert_eq!(t.observe(&ChatEventPayload::TextDelta("x".to_owned())), Ok(()));
    assert_eq!(t.finish(), Err("chat ended without a completed event".to_owned()));
}

#[test]
fn cancel_probe_waits_for_first_text() {
    assert_eq!(cancel_probe(&ChatEventPayload::Started), CancelProbe::Continue);
    assert_eq!(cancel_probe(&ChatEventPayload::TextDelta("x".to_owned())), CancelProbe::Cancel);
    assert_eq!(
        cancel_probe(&ChatEventPayload::Completed),
        CancelProbe::Fail("chat completed before cancellation".to_owned())
    );
    assert_eq!(ended_before_cancellation(), "chat ended before cancellation");
}

#[test]
fn next_event_steps() {
    assert_eq!(next_event_step(Err("reset".to_owned())), EventStep::Fail("reset".to_owned()));
    assert_eq!(
        next_event_step(Ok(None)),
        EventStep::Fail("chat stream ended without a completed event".to_owned())
    );
    assert_eq!(
        next_event_step(Ok(Some(ChatEvent { session_id: "s".to_owned(), payload: ChatEventPayload::Completed }))),
        EventStep::Show { event: ChatUiEvent::Completed { session_id: "s".to_owned() }, last: true }
    );
    assert_eq!(
        next_event_step(Ok(Some(ChatEvent { session_id: "s".to_owned(), payload: ChatEventPayload::Started }))),
        EventStep::Show { event: ChatUiEvent::Started { session_id: "s".to_owned() }, last: false }
    );
}
