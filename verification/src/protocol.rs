use vstd::prelude::*;

verus! {

/// An error that the agent run reports to the host.
#[derive(Debug, PartialEq)]
pub struct RuntimeError {
    pub code: String,
    pub message: String,
    pub retryable: bool,
}

/// A tool call that waits for the user's approval.
#[derive(Debug, PartialEq)]
pub struct ApprovalRequest {
    pub tool_call_id: String,
    pub tool_name: String,
    pub arguments_json: String,
}

/// A lens that the agent saved and that the host should display.
#[derive(Debug, PartialEq)]
pub struct LensChanged {
    pub id: String,
    pub name: String,
    pub icon: String,
    pub html: String,
}

/// What an agent event carries.
#[derive(Debug, PartialEq)]
pub enum Payload {
    Started,
    TextDelta(String),
    Completed,
    Error(RuntimeError),
    ApprovalRequest(ApprovalRequest),
    LensChanged(LensChanged),
}

/// One event of the stream that the sidecar sends to the host.
#[derive(Debug, PartialEq)]
pub struct AgentEvent {
    pub session_id: String,
    pub payload: Option<Payload>,
}

/// The user's answer to an approval request.
#[derive(Debug, PartialEq)]
pub enum Outcome {
    Approved,
    Denied(String),
}

/// The host's message that answers an approval request.
#[derive(Debug, PartialEq)]
pub struct ApprovalDecision {
    pub tool_call_id: String,
    pub outcome: Option<Outcome>,
}

/// What a host message carries.
#[derive(Debug, PartialEq)]
pub enum HostPayload {
    Prompt(String),
    ApprovalDecision(ApprovalDecision),
}

/// One message of the stream that the host sends to the sidecar.
#[derive(Debug, PartialEq)]
pub struct HostMessage {
    pub session_id: String,
    pub payload: Option<HostPayload>,
}

} // verus!
