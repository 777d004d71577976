use vstd::prelude::*;
use vstd::string::*;

use crate::agent_runtime::ChatEventPayload;
use crate::text::joined;

verus! {

broadcast use vstd::string::group_string_axioms;

/// How a runtime error reads: `<code>: <message>`.
pub open spec fn error_text(code: Seq<char>, message: Seq<char>) -> Seq<char> {
    code + ": "@ + message
}

fn error_message(code: &str, message: &str) -> (m: String)
    ensures
        m@ == error_text(code@, message@),
{
    let mut m = joined(code, ": ");
    m.append(message);
    m
}

/// The text of a chat: its text deltas, one after another.
pub open spec fn reply_text(events: Seq<ChatEventPayload>) -> Seq<char>
    decreases events.len(),
{
    if events.len() == 0 {
        Seq::empty()
    } else {
        reply_text(events.drop_last()) + match events.last() {
            ChatEventPayload::TextDelta(t) => t@,
            _ => Seq::empty(),
        }
    }
}

/// The reply keeps every text delta, in order, whatever it holds (white space
/// too): one more delta adds its text at the end, and any other event adds
/// nothing.
pub proof fn reply_keeps_every_delta(events: Seq<ChatEventPayload>, next: ChatEventPayload)
    ensures
        next matches ChatEventPayload::TextDelta(t) ==> reply_text(events.push(next)) == reply_text(events) + t@,
        !(next is TextDelta) ==> reply_text(events.push(next)) == reply_text(events),
{
    assert(events.push(next).drop_last() =~= events);
    assert(reply_text(events) + Seq::<char>::empty() =~= reply_text(events));
}

/// The reply of a chat made of text deltas alone is their texts joined in order.
pub proof fn reply_of_two_deltas(a: String, b: String)
    ensures
        reply_text(seq![ChatEventPayload::TextDelta(a), ChatEventPayload::TextDelta(b)]) == a@ + b@,
{
    let one = seq![ChatEventPayload::TextDelta(a)];
    let two = seq![ChatEventPayload::TextDelta(a), ChatEventPayload::TextDelta(b)];
    reply_keeps_every_delta(Seq::empty(), ChatEventPayload::TextDelta(a));
    assert(Seq::<ChatEventPayload>::empty().push(ChatEventPayload::TextDelta(a)) =~= one);
    reply_keeps_every_delta(one, ChatEventPayload::TextDelta(b));
    assert(one.push(ChatEventPayload::TextDelta(b)) =~= two);
    assert(Seq::<char>::empty() + a@ =~= a@);
}

/// Whether a chat has completed: one of its events is `Completed`.
pub open spec fn has_completed(events: Seq<ChatEventPayload>) -> bool {
    exists|i: int| 0 <= i < events.len() && #[trigger] events[i] is Completed
}

/// The first runtime error among a chat's events, as its text.
pub open spec fn first_error(events: Seq<ChatEventPayload>) -> Option<Seq<char>>
    decreases events.len(),
{
    if events.len() == 0 {
        None
    } else {
        match first_error(events.drop_last()) {
            Some(m) => Some(m),
            None => match events.last() {
                ChatEventPayload::RuntimeError { code, message, .. } => Some(
                    error_text(code@, message@),
                ),
                _ => None,
            },
        }
    }
}

/// The reply of a chat that a smoke run collects, as the events arrive.
pub struct Transcript {
    response: String,
    completed: bool,
}

impl Transcript {
    /// The text collected so far.
    pub closed spec fn text(self) -> Seq<char> {
        self.response@
    }

    /// Whether a completion has arrived.
    pub closed spec fn completed(self) -> bool {
        self.completed
    }

    pub fn new() -> (t: Self)
        ensures
            t.text() == Seq::<char>::empty(),
            !t.completed(),
    {
        Transcript { response: String::new(), completed: false }
    }

    /// Takes one event: a text delta adds to the reply, a completion is noted,
    /// and a runtime error ends the chat with `<code>: <message>`.
    pub fn observe(&mut self, event: &ChatEventPayload) -> (r: Result<(), String>)
        ensures
            match event {
                ChatEventPayload::Started => r is Ok && *final(self) == *old(self),
                ChatEventPayload::TextDelta(t) => r is Ok && final(self).text() == old(self).text()
                    + t@ && final(self).completed() == old(self).completed(),
                ChatEventPayload::Completed => r is Ok && final(self).text() == old(self).text()
                    && final(self).completed(),
                ChatEventPayload::RuntimeError { code, message, .. } => (r matches Err(m) && m@
                    == error_text(code@, message@)) && *final(self) == *old(self),
            },
    {
        match event {
            ChatEventPayload::Started => Ok(()),
            ChatEventPayload::TextDelta(t) => {
                self.response.append(t.as_str());
                Ok(())
            },
            ChatEventPayload::Completed => {
                self.completed = true;
                Ok(())
            },
            ChatEventPayload::RuntimeError { code, message, .. } => Err(
                error_message(code.as_str(), message.as_str()),
            ),
        }
    }

    /// The reply, once the chat's events have run out: a chat that never
    /// completed is a failure.
    pub fn finish(self) -> (r: Result<String, String>)
        ensures
            self.completed() ==> (r matches Ok(s) && s@ == self.text()),
            !self.completed() ==> (r matches Err(m) && m@ == "chat ended without a completed event"@),
    {
        if !self.completed {
            return Err("chat ended without a completed event".to_owned());
        }
        Ok(self.response)
    }
}

/// The reply of a finished chat: its first runtime error ends it as a
/// failure; otherwise its text deltas, one after another, once it has
/// completed.
pub fn collect_reply(events: &Vec<ChatEventPayload>) -> (r: Result<String, String>)
    ensures
        match first_error(events@) {
            Some(m) => (r matches Err(e) && e@ == m),
            None => if has_completed(events@) {
                r matches Ok(s) && s@ == reply_text(events@)
            } else {
                r matches Err(e) && e@ == "chat ended without a completed event"@
            },
        },
{
    let mut transcript = Transcript::new();
    let mut i: usize = 0;
    while i < events.len()
        invariant
            i <= events@.len(),
            first_error(events@.take(i as int)) is None,
            transcript.text() == reply_text(events@.take(i as int)),
            transcript.completed() == has_completed(events@.take(i as int)),
        decreases events@.len() - i,
    {
        let ghost before = events@.take(i as int);
        let ghost after = events@.take(i + 1);
        assert(after.drop_last() =~= before);
        assert(after.last() == events@[i as int]);
        match transcript.observe(&events[i]) {
            Err(m) => {
                proof {
                    lemma_first_error_stays(events@, i as int);
                }
                return Err(m);
            },
            Ok(()) => {},
        }
        proof {
            if transcript.completed() {
                if events@[i as int] is Completed {
                    assert(after[i as int] is Completed);
                } else {
                    let k = choose|k: int| 0 <= k < before.len() && #[trigger] before[k] is Completed;
                    assert(after[k] == before[k]);
                }
            } else {
                assert forall|k: int| 0 <= k < after.len() implies !(#[trigger] after[k] is Completed) by {
                    if k < before.len() {
                        assert(after[k] == before[k]);
                    }
                }
            }
        }
        i = i + 1;
    }
    assert(events@.take(i as int) =~= events@);
    transcript.finish()
}

/// Once an error comes first among the events up to `k`, it comes first among all events.
proof fn lemma_first_error_stays(events: Seq<ChatEventPayload>, k: int)
    requires
        0 <= k < events.len(),
        first_error(events.take(k + 1)) is Some,
    ensures
        first_error(events) == first_error(events.take(k + 1)),
    decreases events.len(),
{
    if k + 1 == events.len() {
        assert(events.take(k + 1) =~= events);
    } else {
        assert(events.drop_last().take(k + 1) =~= events.take(k + 1));
        lemma_first_error_stays(events.drop_last(), k);
    }
}

/// What a smoke run does with one event while it waits to cancel a chat.
#[derive(Debug, PartialEq)]
pub enum CancelProbe {
    /// Keep reading.
    Continue,
    /// The first text arrived: cancel now.
    Cancel,
    /// The chat ended first, for this reason.
    Fail(String),
}

/// Waits for the first text of a chat, so as to cancel it mid-stream.
pub fn cancel_probe(event: &ChatEventPayload) -> (p: CancelProbe)
    ensures
        match event {
            ChatEventPayload::Started => p == CancelProbe::Continue,
            ChatEventPayload::TextDelta(_) => p == CancelProbe::Cancel,
            ChatEventPayload::Completed => (p matches CancelProbe::Fail(m) && m@
                == "chat completed before cancellation"@),
            ChatEventPayload::RuntimeError { code, message, .. } => (p matches CancelProbe::Fail(m)
                && m@ == error_text(code@, message@)),
        },
{
    match event {
        ChatEventPayload::Started => CancelProbe::Continue,
        ChatEventPayload::TextDelta(_) => CancelProbe::Cancel,
        ChatEventPayload::Completed => CancelProbe::Fail("chat completed before cancellation".to_owned()),
        ChatEventPayload::RuntimeError { code, message, .. } => CancelProbe::Fail(
            error_message(code.as_str(), message.as_str()),
        ),
    }
}

/// The failure when a chat's events run out before its first text.
pub fn ended_before_cancellation() -> (m: String)
    ensures
        m@ == "chat ended before cancellation"@,
{
    "chat ended before cancellation".to_owned()
}

} // verus!
