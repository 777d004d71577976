use vstd::prelude::*;
use vstd::string::*;

use crate::registry::Registry;
use crate::protocol::{AgentEvent, ApprovalDecision, ApprovalRequest, Outcome, Payload};

verus! {

broadcast use vstd::string::group_string_axioms;

/// What a decision's outcome means for the waiting tool call: approval lets
/// it run; a denial, or a decision without outcome, refuses it with a reason.
pub open spec fn decision_result(outcome: Option<Outcome>) -> Result<(), Seq<char>> {
    match outcome {
        Some(Outcome::Approved) => Ok(()),
        Some(Outcome::Denied(reason)) => Err(reason@),
        None => Err("No decision provided"@),
    }
}

/// Whether `r`, a result with a `String` reason, is `decision_result(outcome)`.
pub open spec fn is_decision_result(r: Result<(), String>, outcome: Option<Outcome>) -> bool {
    match r {
        Ok(()) => decision_result(outcome) is Ok,
        Err(reason) => decision_result(outcome) == Err::<(), Seq<char>>(reason@),
    }
}

/// Turns a decision's outcome into the answer for the waiting tool call.
pub fn outcome_result(outcome: Option<Outcome>) -> (r: Result<(), String>)
    ensures
        is_decision_result(r, outcome),
{
    match outcome {
        Some(Outcome::Approved) => Ok(()),
        Some(Outcome::Denied(reason)) => Err(reason),
        None => Err("No decision provided".to_owned()),
    }
}

/// The tool calls of one session that wait for the user's decision, each
/// under its id, with the means (`S`) to hand the decision to the waiting call.
pub struct ApprovalState<S> {
    pending: Registry<S>,
}

impl<S> ApprovalState<S> {
    /// Each waiting tool call id, with the means to answer it.
    pub closed spec fn view(self) -> Map<Seq<char>, S> {
        self.pending@
    }

    /// No tool call waits.
    pub fn new() -> (s: Self)
        ensures
            s@ == Map::<Seq<char>, S>::empty(),
    {
        ApprovalState { pending: Registry::new() }
    }

    /// Makes `tool_call_id` wait with `reply`. A call that waited under the same
    /// id is displaced, and its means of answer is handed back.
    pub fn register(&mut self, tool_call_id: String, reply: S) -> (displaced: Option<S>)
        ensures
            final(self)@ == old(self)@.insert(tool_call_id@, reply),
            displaced == (if old(self)@.contains_key(tool_call_id@) {
                Some(old(self)@[tool_call_id@])
            } else {
                None
            }),
    {
        self.pending.register(tool_call_id, reply)
    }

    /// Stops `tool_call_id` from waiting, and hands back its means of answer
    /// if it was waiting.
    pub fn withdraw(&mut self, tool_call_id: &String) -> (reply: Option<S>)
        ensures
            final(self)@ == old(self)@.remove(tool_call_id@),
            reply == (if old(self)@.contains_key(tool_call_id@) {
                Some(old(self)@[tool_call_id@])
            } else {
                None
            }),
    {
        self.pending.withdraw(tool_call_id)
    }

    /// Stops every call from waiting; their means of answer are dropped, so
    /// each waiting call learns that no decision will come.
    pub fn cancel_all(&mut self)
        ensures
            final(self)@ == Map::<Seq<char>, S>::empty(),
    {
        self.pending.clear();
    }

    /// Takes the host's decision: the tool call that it names stops waiting,
    /// and if it was waiting, its means of answer comes back with the answer
    /// to hand it. A decision for a call that does not wait changes nothing.
    pub fn handle_decision(&mut self, decision: ApprovalDecision) -> (answer: Option<(S, Result<(), String>)>)
        ensures
            final(self)@ == old(self)@.remove(decision.tool_call_id@),
            old(self)@.contains_key(decision.tool_call_id@) <==> answer is Some,
            answer matches Some((reply, result)) ==> reply == old(self)@[decision.tool_call_id@]
                && is_decision_result(result, decision.outcome),
    {
        match self.withdraw(&decision.tool_call_id) {
            Some(reply) => Some((reply, outcome_result(decision.outcome))),
            None => None,
        }
    }
}

/// Sends a session's agent events to the host, and asks it for approvals.
pub struct ApprovalBridge<E> {
    pub session_id: String,
    pub events: E,
}

impl<E> ApprovalBridge<E> {
    pub fn new(session_id: String, events: E) -> (b: Self)
        ensures
            b.session_id == session_id,
            b.events == events,
    {
        ApprovalBridge { session_id, events }
    }

    /// The event that carries `payload` for this bridge's session.
    pub fn emit(&self, payload: Payload) -> (event: AgentEvent)
        ensures
            event.session_id@ == self.session_id@,
            event.payload == Some(payload),
    {
        AgentEvent { session_id: self.session_id.clone(), payload: Some(payload) }
    }

    /// Asks for approval of a tool call: the call starts to wait under its id
    /// with `reply`, and the returned event is the request to send to the host.
    /// A call that waited under the same id is displaced and handed back.
    pub fn request_approval<S>(
        &self,
        state: &mut ApprovalState<S>,
        tool_call_id: String,
        tool_name: String,
        arguments_json: String,
        reply: S,
    ) -> (r: (AgentEvent, Option<S>))
        ensures
            final(state)@ == old(state)@.insert(tool_call_id@, reply),
            r.1 == (if old(state)@.contains_key(tool_call_id@) {
                Some(old(state)@[tool_call_id@])
            } else {
                None
            }),
            r.0.session_id@ == self.session_id@,
            r.0.payload matches Some(Payload::ApprovalRequest(request)) && request.tool_call_id@
                == tool_call_id@ && request.tool_name == tool_name && request.arguments_json
                == arguments_json,
    {
        let request = ApprovalRequest {
            tool_call_id: tool_call_id.clone(),
            tool_name,
            arguments_json,
        };
        let displaced = state.register(tool_call_id, reply);
        (self.emit(Payload::ApprovalRequest(request)), displaced)
    }

    /// The request could not be sent: the tool call stops waiting.
    pub fn abandon_approval<S>(&self, state: &mut ApprovalState<S>, tool_call_id: &String) -> (reply: Option<S>)
        ensures
            final(state)@ == old(state)@.remove(tool_call_id@),
            reply == (if old(state)@.contains_key(tool_call_id@) {
                Some(old(state)@[tool_call_id@])
            } else {
                None
            }),
    {
        state.withdraw(tool_call_id)
    }
}

/// A decision reaches the call that waits under its id, and only once: right
/// after a call starts to wait with `reply`, its id is waiting with that
/// `reply`; once the decision for it is taken, the id waits no more, so a
/// second decision for it changes nothing and answers nothing.
pub proof fn decision_answers_once<S>(pending: Map<Seq<char>, S>, tool_call_id: Seq<char>, reply: S)
    ensures
        pending.insert(tool_call_id, reply).contains_key(tool_call_id),
        pending.insert(tool_call_id, reply)[tool_call_id] == reply,
        !pending.insert(tool_call_id, reply).remove(tool_call_id).contains_key(tool_call_id),
        pending.insert(tool_call_id, reply).remove(tool_call_id).remove(tool_call_id)
            == pending.insert(tool_call_id, reply).remove(tool_call_id),
{
    assert(pending.insert(tool_call_id, reply).remove(tool_call_id).remove(tool_call_id)
        =~= pending.insert(tool_call_id, reply).remove(tool_call_id));
}

/// Calls wait independently: a call that starts to wait, or a decision for
/// one call, leaves every other waiting call as it was.
pub proof fn calls_wait_independently<S>(pending: Map<Seq<char>, S>, tool_call_id: Seq<char>, reply: S, other: Seq<char>)
    requires
        other != tool_call_id,
    ensures
        pending.insert(tool_call_id, reply).contains_key(other) == pending.contains_key(other),
        pending.contains_key(other) ==> pending.insert(tool_call_id, reply)[other] == pending[other],
        pending.remove(tool_call_id).contains_key(other) == pending.contains_key(other),
        pending.contains_key(other) ==> pending.remove(tool_call_id)[other] == pending[other],
{
}

} // verus!
