use vstd::prelude::*;
use vstd::string::*;

use crate::agent_runtime::{ChatEvent, ChatEventPayload};
use crate::registry::Registry;
use crate::text::{debug_quoted, debug_text, joined, trim, trimmed};

verus! {

broadcast use vstd::string::group_string_axioms;

/// An event that the host shows in the chat window.
#[derive(Debug, PartialEq)]
pub enum ChatUiEvent {
    Started { session_id: String },
    TextDelta { session_id: String, text: String },
    Completed { session_id: String },
    Cancelled { session_id: String },
    Error { session_id: String, code: String, message: String, retryable: bool },
}

/// Whether a chat event ends its request: a completion or an error does.
pub open spec fn is_terminal(p: ChatEventPayload) -> bool {
    p is Completed || p is RuntimeError
}

/// Whether `u` shows the chat event `e`.
pub open spec fn shows(u: ChatUiEvent, e: ChatEvent) -> bool {
    match (e.payload, u) {
        (ChatEventPayload::Started, ChatUiEvent::Started { session_id }) => session_id
            == e.session_id,
        (ChatEventPayload::TextDelta(t), ChatUiEvent::TextDelta { session_id, text }) => session_id
            == e.session_id && text == t,
        (ChatEventPayload::Completed, ChatUiEvent::Completed { session_id }) => session_id
            == e.session_id,
        (
            ChatEventPayload::RuntimeError { code, message, retryable },
            ChatUiEvent::Error { session_id, code: c, message: m, retryable: r },
        ) => session_id == e.session_id && c == code && m == message && r == retryable,
        _ => false,
    }
}

/// The window event that shows a chat event, and whether the request ends with it.
pub fn ui_event(event: ChatEvent) -> (r: (ChatUiEvent, bool))
    ensures
        shows(r.0, event),
        r.1 == is_terminal(event.payload),
{
    let ChatEvent { session_id, payload } = event;
    match payload {
        ChatEventPayload::Started => (ChatUiEvent::Started { session_id }, false),
        ChatEventPayload::TextDelta(text) => (ChatUiEvent::TextDelta { session_id, text }, false),
        ChatEventPayload::Completed => (ChatUiEvent::Completed { session_id }, true),
        ChatEventPayload::RuntimeError { code, message, retryable } => (
            ChatUiEvent::Error { session_id, code, message, retryable },
            true,
        ),
    }
}

/// What the host does with what the chat stream yields next.
#[derive(Debug, PartialEq)]
pub enum EventStep {
    /// Show the event in the window; the request ends with it when `last`.
    Show { event: ChatUiEvent, last: bool },
    /// The request fails, for this reason.
    Fail(String),
}

/// Answers what the chat stream yields next: its failure fails the request,
/// its end before a completion or an error does too, and an event is shown.
pub fn next_event_step(next: Result<Option<ChatEvent>, String>) -> (step: EventStep)
    ensures
        next matches Err(e) ==> step == EventStep::Fail(e),
        next matches Ok(None) ==> (step matches EventStep::Fail(m) && m@
            == "chat stream ended without a completed event"@),
        next matches Ok(Some(ev)) ==> (step matches EventStep::Show { event, last } && shows(event, ev)
            && last == is_terminal(ev.payload)),
{
    match next {
        Err(e) => EventStep::Fail(e),
        Ok(None) => EventStep::Fail(ended_without_completion()),
        Ok(Some(ev)) => {
            let (event, last) = ui_event(ev);
            EventStep::Show { event, last }
        },
    }
}

/// The window event that says a request was cancelled.
pub fn cancelled(session_id: String) -> (u: ChatUiEvent)
    ensures
        u == (ChatUiEvent::Cancelled { session_id }),
{
    ChatUiEvent::Cancelled { session_id }
}

/// A message to send must name a session and say something: neither may be
/// white space alone.
pub fn check_message(session_id: &str, prompt: &str) -> (r: Result<(), String>)
    ensures
        trimmed(session_id@).len() == 0 ==> (r matches Err(m) && m@ == "session_id cannot be empty"@),
        trimmed(session_id@).len() > 0 && trimmed(prompt@).len() == 0 ==> (r matches Err(m) && m@
            == "prompt cannot be empty"@),
        trimmed(session_id@).len() > 0 && trimmed(prompt@).len() > 0 ==> r is Ok,
{
    if trim(session_id).is_empty() {
        return Err("session_id cannot be empty".to_owned());
    }
    if trim(prompt).is_empty() {
        return Err("prompt cannot be empty".to_owned());
    }
    Ok(())
}

/// `session <id in quotes><rest>`, as the host words its refusals.
pub open spec fn session_message(session_id: Seq<char>, rest: Seq<char>) -> Seq<char> {
    "session "@ + debug_text(session_id) + rest
}

fn session_text(session_id: &str, rest: &str) -> (m: String)
    ensures
        m@ == session_message(session_id@, rest@),
{
    let mut m = joined("session ", debug_quoted(session_id).as_str());
    m.append(rest);
    m
}

/// The refusal when a cancelled request had already finished.
pub fn already_finished(session_id: &str) -> (m: String)
    ensures
        m@ == session_message(session_id@, " already finished"@),
{
    session_text(session_id, " already finished")
}

/// The refusal when the chat stream ends before a completion or an error.
pub fn ended_without_completion() -> (m: String)
    ensures
        m@ == "chat stream ended without a completed event"@,
{
    "chat stream ended without a completed event".to_owned()
}

/// The chat requests in flight, one per session at most, each with the means
/// (`C`) to cancel it; `None` once its cancellation has been asked for.
pub struct ActiveRequests<C> {
    requests: Registry<Option<C>>,
}

impl<C> ActiveRequests<C> {
    /// Each session with a request in flight, and its means of cancellation.
    pub closed spec fn view(self) -> Map<Seq<char>, Option<C>> {
        self.requests@
    }

    pub fn new() -> (a: Self)
        ensures
            a@ == Map::<Seq<char>, Option<C>>::empty(),
    {
        ActiveRequests { requests: Registry::new() }
    }

    /// Starts a request for `session_id`, unless one is in flight already.
    pub fn begin(&mut self, session_id: &String, cancel: C) -> (r: Result<(), String>)
        ensures
            old(self)@.contains_key(session_id@) ==> final(self)@ == old(self)@ && (r matches Err(m)
                && m@ == session_message(session_id@, " already has an active request"@)),
            !old(self)@.contains_key(session_id@) ==> final(self)@ == old(self)@.insert(
                session_id@,
                Some(cancel),
            ) && r is Ok,
    {
        if self.requests.contains(session_id) {
            return Err(session_text(session_id.as_str(), " already has an active request"));
        }
        self.requests.register(session_id.clone(), Some(cancel));
        Ok(())
    }

    /// Asks for the cancellation of the request of `session_id`: hands back
    /// its means of cancellation, once; later asks are refused.
    pub fn cancel(&mut self, session_id: &String) -> (r: Result<C, String>)
        ensures
            !old(self)@.contains_key(session_id@) ==> final(self)@ == old(self)@ && (r matches Err(m)
                && m@ == session_message(session_id@, " has no active request"@)),
            old(self)@.contains_key(session_id@) && old(self)@[session_id@] is None ==> final(self)@
                == old(self)@ && (r matches Err(m) && m@ == session_message(
                session_id@,
                " is already cancelling"@,
            )),
            old(self)@.contains_key(session_id@) && old(self)@[session_id@] is Some ==> final(self)@
                == old(self)@.insert(session_id@, None) && r == Ok::<C, String>(
                old(self)@[session_id@].unwrap(),
            ),
    {
        let ghost before = self@;
        match self.requests.withdraw(session_id) {
            None => Err(session_text(session_id.as_str(), " has no active request")),
            Some(None) => {
                self.requests.register(session_id.clone(), None);
                assert(self@ =~= before);
                Err(session_text(session_id.as_str(), " is already cancelling"))
            },
            Some(Some(cancel)) => {
                self.requests.register(session_id.clone(), None);
                assert(self@ =~= before.insert(session_id@, None));
                Ok(cancel)
            },
        }
    }

    /// The request of `session_id` is over.
    pub fn finish(&mut self, session_id: &String)
        ensures
            final(self)@ == old(self)@.remove(session_id@),
    {
        self.requests.withdraw(session_id);
    }
}

/// A request is cancelled at most once: once its cancellation has been handed
/// out, the session still has a request in flight, but no means to cancel it
/// again; once the request is over, a new one may start for the session.
pub proof fn cancellation_is_handed_out_once<C>(active: Map<Seq<char>, Option<C>>, session_id: Seq<char>)
    ensures
        active.insert(session_id, None).contains_key(session_id),
        active.insert(session_id, None)[session_id] is None,
        !active.insert(session_id, None).remove(session_id).contains_key(session_id),
{
}

} // verus!
