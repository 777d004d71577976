use subtle::ConstantTimeEq;
use vstd::prelude::*;
use vstd::string::*;
use vstd::utf8::*;

use crate::approval::{is_decision_result, ApprovalState};
use crate::protocol::{HostMessage, HostPayload};

verus! {

broadcast use vstd::string::group_string_axioms;

/// `subtle`'s `ConstantTimeEq::ct_eq` on two byte slices, read as a `bool`:
/// its source answers 1 exactly when the lengths agree and every pair of
/// bytes agrees, and `bool::from` maps 1 to `true`.
#[verifier::external_body]
fn bytes_equal_in_constant_time(a: &[u8], b: &[u8]) -> (same: bool)
    ensures
        same == (a@ == b@),
{
    bool::from(a.ct_eq(b))
}

/// The model endpoint that the sidecar uses when none is configured.
pub open spec fn default_base_url() -> Seq<char> {
    "http://bigbertha:11434/v1"@
}

/// The model that the sidecar uses when none is configured.
pub open spec fn default_model() -> Seq<char> {
    "glm-5.3-flash:cloud"@
}

/// Where the sidecar's model lives and which model it uses.
#[derive(Debug, PartialEq)]
pub struct RuntimeSettings {
    pub base_url: String,
    pub model_name: String,
}

/// The settings that the environment gives: the base URL from
/// `OLLAMA_BASE_URL`, else `OPENAI_BASE_URL`, else the default; the model
/// from `CHAMBER_MODEL`, else the default. Each argument is the variable's
/// value, or `None` when it is unset or not Unicode.
pub fn resolve_settings(
    ollama_base_url: Option<String>,
    openai_base_url: Option<String>,
    chamber_model: Option<String>,
) -> (s: RuntimeSettings)
    ensures
        s.base_url@ == (match (ollama_base_url, openai_base_url) {
            (Some(u), _) => u@,
            (None, Some(u)) => u@,
            (None, None) => default_base_url(),
        }),
        s.model_name@ == (match chamber_model {
            Some(m) => m@,
            None => default_model(),
        }),
{
    let base_url = match ollama_base_url {
        Some(u) => u,
        None => match openai_base_url {
            Some(u) => u,
            None => "http://bigbertha:11434/v1".to_owned(),
        },
    };
    let model_name = match chamber_model {
        Some(m) => m,
        None => "glm-5.3-flash:cloud".to_owned(),
    };
    RuntimeSettings { base_url, model_name }
}

/// Admits a connection whose `x-chamber-token` header carries exactly the
/// sidecar's token; the comparison takes the same time whatever the bytes.
/// `presented` is the header as text, `None` when it is missing or not text.
pub fn authenticate(presented: Option<&str>, expected: &str) -> (r: Result<(), String>)
    ensures
        r is Ok <==> (presented matches Some(t) && t@ == expected@),
        r matches Err(m) ==> m@ == "Invalid sidecar authentication token"@,
{
    let admitted = match presented {
        Some(t) => {
            let same = bytes_equal_in_constant_time(t.as_bytes(), expected.as_bytes());
            proof {
                encode_utf8_decode_utf8(t@);
                encode_utf8_decode_utf8(expected@);
            }
            same
        },
        None => false,
    };
    if !admitted {
        return Err("Invalid sidecar authentication token".to_owned());
    }
    Ok(())
}

/// Why the sidecar refuses an interaction at its start.
#[derive(Debug, PartialEq)]
pub enum InteractError<E> {
    /// The host's stream failed.
    Stream(E),
    /// The host's first message is missing or is no prompt.
    InvalidArgument(String),
}

/// The session and prompt with which an interaction starts: its first
/// message must exist, must have arrived, and must be a prompt.
pub fn first_prompt<E>(first: Option<Result<HostMessage, E>>) -> (r: Result<(String, String), InteractError<E>>)
    ensures
        first is None ==> (r matches Err(InteractError::InvalidArgument(m)) && m@
            == "Interact requires an initial prompt"@),
        first matches Some(Err(e)) ==> r == Err::<(String, String), InteractError<E>>(
            InteractError::Stream(e),
        ),
        first matches Some(Ok(msg)) ==> match msg.payload {
            Some(HostPayload::Prompt(text)) => r == Ok::<(String, String), InteractError<E>>(
                (msg.session_id, text),
            ),
            _ => (r matches Err(InteractError::InvalidArgument(m)) && m@
                == "First Interact message must be a prompt"@),
        },
{
    match first {
        None => Err(InteractError::InvalidArgument("Interact requires an initial prompt".to_owned())),
        Some(Err(e)) => Err(InteractError::Stream(e)),
        Some(Ok(msg)) => match msg.payload {
            Some(HostPayload::Prompt(text)) => Ok((msg.session_id, text)),
            _ => Err(
                InteractError::InvalidArgument("First Interact message must be a prompt".to_owned()),
            ),
        },
    }
}

/// What the sidecar's reader does after one incoming message.
pub enum ReaderStep<S> {
    /// Go on reading; if a waiting tool call was decided, hand it this answer.
    Continue(Option<(S, Result<(), String>)>),
    /// The host's stream failed: stop reading.
    Stop,
}

/// Takes one message from the host's stream: a decision answers the tool call
/// that it names; any other message is ignored; a failed stream cancels every
/// waiting call and ends the reading.
pub fn read_host_message<S, E>(state: &mut ApprovalState<S>, msg: Result<HostMessage, E>) -> (step: ReaderStep<S>)
    ensures
        msg is Err ==> final(state)@ == Map::<Seq<char>, S>::empty() && (step is Stop),
        msg matches Ok(m) ==> match m.payload {
            Some(HostPayload::ApprovalDecision(d)) => {
                &&& final(state)@ == old(state)@.remove(d.tool_call_id@)
                &&& step matches ReaderStep::Continue(answer)
                &&& (old(state)@.contains_key(d.tool_call_id@) <==> answer is Some)
                &&& answer matches Some((reply, result)) ==> reply == old(state)@[d.tool_call_id@]
                    && is_decision_result(result, d.outcome)
            },
            _ => final(state)@ == old(state)@ && (step matches ReaderStep::Continue(None)),
        },
{
    match msg {
        Ok(m) => match m.payload {
            Some(HostPayload::ApprovalDecision(decision)) => ReaderStep::Continue(
                state.handle_decision(decision),
            ),
            _ => ReaderStep::Continue(None),
        },
        Err(_) => {
            state.cancel_all();
            ReaderStep::Stop
        },
    }
}

} // verus!
