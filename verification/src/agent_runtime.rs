use vstd::prelude::*;
use vstd::string::*;

verus! {

broadcast use vstd::string::group_string_axioms;

/// What a chat event carries, as the host's command layer sees it.
#[derive(Debug, PartialEq)]
pub enum ChatEventPayload {
    Started,
    TextDelta(String),
    Completed,
    RuntimeError { code: String, message: String, retryable: bool },
}

/// One event of a chat, for one session.
#[derive(Debug, PartialEq)]
pub struct ChatEvent {
    pub session_id: String,
    pub payload: ChatEventPayload,
}

/// What an agent event carries on the wire between host and sidecar.
#[derive(Debug, PartialEq)]
pub enum WirePayload {
    Started,
    TextDelta(String),
    Completed,
    Error { code: String, message: String, retryable: bool },
}

/// An agent event as it arrives from the sidecar; its payload may be missing.
#[derive(Debug, PartialEq)]
pub struct WireEvent {
    pub session_id: String,
    pub payload: Option<WirePayload>,
}

/// Whether `p` is the chat payload for the wire payload `w`.
pub open spec fn carries(p: ChatEventPayload, w: WirePayload) -> bool {
    match (w, p) {
        (WirePayload::Started, ChatEventPayload::Started) => true,
        (WirePayload::TextDelta(t), ChatEventPayload::TextDelta(u)) => u == t,
        (WirePayload::Completed, ChatEventPayload::Completed) => true,
        (
            WirePayload::Error { code, message, retryable },
            ChatEventPayload::RuntimeError { code: c, message: m, retryable: r },
        ) => c == code && m == message && r == retryable,
        _ => false,
    }
}

/// Turns an event from the sidecar into a chat event; an event without
/// payload is refused as data loss, with the message it answers.
pub fn chat_event(event: WireEvent) -> (r: Result<ChatEvent, String>)
    ensures
        event.payload is None <==> r is Err,
        r matches Err(m) ==> m@ == "agent event has no payload"@,
        r matches Ok(e) ==> e.session_id == event.session_id && carries(
            e.payload,
            event.payload.unwrap(),
        ),
{
    let payload = match event.payload {
        Some(WirePayload::Started) => ChatEventPayload::Started,
        Some(WirePayload::TextDelta(text)) => ChatEventPayload::TextDelta(text),
        Some(WirePayload::Completed) => ChatEventPayload::Completed,
        Some(WirePayload::Error { code, message, retryable }) => ChatEventPayload::RuntimeError {
            code,
            message,
            retryable,
        },
        None => return Err("agent event has no payload".to_owned()),
    };
    Ok(ChatEvent { session_id: event.session_id, payload })
}

} // verus!
