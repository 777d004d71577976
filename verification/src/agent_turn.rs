use vstd::prelude::*;
use vstd::string::*;

use crate::lens::lens_verdict;
use crate::lens_store::{validate, LensSnapshot};
use crate::protocol::{LensChanged, Payload, RuntimeError};
use crate::tool_args::{lens_arguments, requested_lens, saved_report, saved_report_text};

verus! {

broadcast use {vstd::string::group_string_axioms, vstd::std_specs::vec::group_vec_axioms};

/// A tool call that the model's answer asks for.
#[derive(Debug, PartialEq)]
pub struct ToolCallRequest {
    /// The id under which the call is sent to the host for approval.
    pub call_id: String,
    pub name: String,
    /// The call's arguments, as JSON text.
    pub arguments_json: String,
}

/// One item of the model's finished answer.
#[derive(Debug, PartialEq)]
pub enum AssistantItem {
    Text,
    ToolCall(ToolCallRequest),
    Other,
}

/// One chunk of the model's streamed answer.
#[derive(Debug, PartialEq)]
pub enum StreamChunk {
    Text(String),
    Other,
    Failed(String),
}

/// What goes back to the model as the result of one tool call.
#[derive(Debug, PartialEq)]
pub enum ToolOutput {
    /// The lens was saved and displayed; `report` is the JSON text that says so.
    Saved { id: String, report: String },
    /// The user refused the call.
    Denied { message: String },
}

/// What the outside world reports to the agent run, in answer to its last action.
#[derive(Debug, PartialEq)]
pub enum AgentInput {
    /// Whether the event of an `Emit` reached the host.
    Emitted(bool),
    /// Whether the model's answer stream opened, or why not.
    StreamOpened(Result<(), String>),
    /// The next chunk of the answer stream.
    Chunk(StreamChunk),
    /// The answer stream ran out; the model's finished answer.
    StreamEnded(Vec<AssistantItem>),
    /// The exchange or the tool result was recorded.
    Recorded,
    /// The user's decision on the tool call; `None` when no decision will come.
    ApprovalAnswered(Option<Result<(), String>>),
    /// Whether the lens was written to the mind directory, or why not.
    LensWritten(Result<(), String>),
}

/// What the agent run asks the outside world to do next.
#[derive(Debug, PartialEq)]
pub enum AgentAction {
    /// Send the event; answer with `Emitted`.
    Emit(Payload),
    /// Send the event, whatever comes of it; the run is over.
    EmitFinal(Payload),
    /// Ask the model for an answer to the current prompt and the history;
    /// answer with `StreamOpened`.
    OpenStream,
    /// Pull the next chunk of the answer; answer with `Chunk` or `StreamEnded`.
    NextChunk,
    /// Add the current prompt and the model's answer to the history; answer with `Recorded`.
    RecordExchange,
    /// Ask the user to approve the tool call; answer with `ApprovalAnswered`.
    AskApproval { call_id: String, tool_name: String, arguments_json: String },
    /// Write the lens to the mind directory; answer with `LensWritten`.
    WriteLens(LensSnapshot),
    /// Keep the result of the tool call at `index` of the answer's tool calls;
    /// answer with `Recorded`.
    AddToolResult { index: usize, output: ToolOutput },
    /// Make the kept tool results the next prompt and ask the model again;
    /// answer with `StreamOpened`.
    Resume,
    /// The run is over.
    Stop,
}

/// Where an agent run stands.
#[derive(PartialEq, Eq, Structural, Debug)]
pub enum Phase {
    Starting,
    Opening,
    Streaming,
    Relaying,
    Recording,
    Approving,
    Writing,
    Announcing,
    Reporting,
    Done,
}

/// The tool calls among the items of an answer, in order.
pub open spec fn tool_calls(items: Seq<AssistantItem>) -> Seq<ToolCallRequest>
    decreases items.len(),
{
    if items.len() == 0 {
        Seq::empty()
    } else {
        let rest = tool_calls(items.drop_last());
        match items.last() {
            AssistantItem::ToolCall(call) => rest.push(call),
            _ => rest,
        }
    }
}

/// The tool calls of a finished answer, in order.
pub fn tool_calls_of(items: Vec<AssistantItem>) -> (calls: Vec<ToolCallRequest>)
    ensures
        calls@ == tool_calls(items@),
{
    let ghost all = items@;
    let total = items.len();
    let mut calls: Vec<ToolCallRequest> = Vec::new();
    let mut n: usize = 0;
    for item in it: items.into_iter()
        invariant
            it.seq() == all,
            total == all.len(),
            n == it.index(),
            n <= all.len(),
            calls@ == tool_calls(all.take(n as int)),
    {
        assert(all.take(n + 1).drop_last() =~= all.take(n as int));
        assert(all.take(n + 1).last() == item);
        match item {
            AssistantItem::ToolCall(call) => calls.push(call),
            _ => {},
        }
        n = n + 1;
    }
    assert(all.take(n as int) =~= all);
    calls
}

/// The error event that ends a run.
pub open spec fn is_error_event(p: Payload, code: Seq<char>, message: Seq<char>) -> bool {
    p matches Payload::Error(e) && e.code@ == code && e.message@ == message && !e.retryable
}

/// The event that announces a saved lens.
pub open spec fn announces(p: Payload, lens: LensSnapshot) -> bool {
    p matches Payload::LensChanged(c) && c.id@ == lens.id@ && c.name@ == lens.name@ && c.icon@
        == lens.icon@ && c.html@ == lens.html@
}

/// The approval request for a tool call.
pub open spec fn asks_for(a: AgentAction, call: ToolCallRequest) -> bool {
    a matches AgentAction::AskApproval { call_id, tool_name, arguments_json } && call_id@
        == call.call_id@ && tool_name@ == call.name@ && arguments_json@ == call.arguments_json@
}

/// The result that tells the model the user refused the call, for the reason given.
pub open spec fn denial_text(reason: Seq<char>) -> Seq<char> {
    "Tool call denied by user: "@ + reason
}

/// One agent run: it streams the model's answers to the host, and carries
/// out the lens tool calls that the user approves, until the model answers
/// without tool calls or something fails.
pub struct AgentTurn {
    phase: Phase,
    calls: Vec<ToolCallRequest>,
    cursor: usize,
    lens: Option<LensSnapshot>,
}

impl AgentTurn {
    pub closed spec fn phase(self) -> Phase {
        self.phase
    }

    /// The tool calls of the answer being carried out.
    pub closed spec fn calls(self) -> Seq<ToolCallRequest> {
        self.calls@
    }

    /// The position, among `calls()`, of the tool call being carried out.
    pub closed spec fn cursor(self) -> int {
        self.cursor as int
    }

    /// The lens being written and announced.
    pub closed spec fn lens(self) -> Option<LensSnapshot> {
        self.lens
    }

    #[verifier::type_invariant]
    closed spec fn well_formed(self) -> bool {
        &&& (self.phase == Phase::Recording) ==> self.calls@.len() > 0 && self.cursor == 0
        &&& (self.phase == Phase::Approving || self.phase == Phase::Writing || self.phase
            == Phase::Announcing || self.phase == Phase::Reporting) ==> self.cursor
            < self.calls@.len()
        &&& (self.phase == Phase::Writing || self.phase == Phase::Announcing) ==> self.lens is Some
    }

    /// The tool call being carried out.
    pub open spec fn current_call(self) -> ToolCallRequest {
        self.calls()[self.cursor()]
    }

    /// Starts a run: the first thing it does is to announce that it started.
    pub fn start() -> (r: (AgentTurn, AgentAction))
        ensures
            r.0.phase() == Phase::Starting,
            r.0.calls().len() == 0,
            r.0.cursor() == 0,
            r.0.lens() is None,
            r.1 == AgentAction::Emit(Payload::Started),
    {
        (
            AgentTurn { phase: Phase::Starting, calls: Vec::new(), cursor: 0, lens: None },
            AgentAction::Emit(Payload::Started),
        )
    }
}

/// The run moves to `phase` and keeps its tool calls, cursor and lens.
pub open spec fn moves(pre: AgentTurn, post: AgentTurn, phase: Phase) -> bool {
    &&& post.phase() == phase
    &&& post.calls() == pre.calls()
    &&& post.cursor() == pre.cursor()
    &&& post.lens() == pre.lens()
}

/// The run is over and asks for nothing more.
pub open spec fn halts(post: AgentTurn, action: AgentAction) -> bool {
    post.phase() == Phase::Done && action == AgentAction::Stop
}

/// The run is over after a last event.
pub open spec fn ends_with(post: AgentTurn, action: AgentAction, last: spec_fn(Payload) -> bool) -> bool {
    &&& post.phase() == Phase::Done
    &&& action matches AgentAction::EmitFinal(p) && last(p)
}

/// How an agent run answers `input` in state `pre`: its next state `post` and
/// its next `action`. An input that the phase does not expect ends the run.
pub open spec fn turn_step(pre: AgentTurn, input: AgentInput, post: AgentTurn, action: AgentAction) -> bool {
    match pre.phase() {
        Phase::Starting => match input {
            AgentInput::Emitted(true) => moves(pre, post, Phase::Opening) && action
                == AgentAction::OpenStream,
            _ => halts(post, action),
        },
        Phase::Opening => match input {
            AgentInput::StreamOpened(Ok(())) => moves(pre, post, Phase::Streaming) && action
                == AgentAction::NextChunk,
            AgentInput::StreamOpened(Err(e)) => ends_with(
                post,
                action,
                |p: Payload| is_error_event(p, "StreamError"@, e@),
            ),
            _ => halts(post, action),
        },
        Phase::Streaming => match input {
            AgentInput::Chunk(StreamChunk::Text(t)) => if t@.len() > 0 {
                moves(pre, post, Phase::Relaying) && action == AgentAction::Emit(
                    Payload::TextDelta(t),
                )
            } else {
                moves(pre, post, Phase::Streaming) && action == AgentAction::NextChunk
            },
            AgentInput::Chunk(StreamChunk::Other) => moves(pre, post, Phase::Streaming) && action
                == AgentAction::NextChunk,
            AgentInput::Chunk(StreamChunk::Failed(e)) => ends_with(
                post,
                action,
                |p: Payload| is_error_event(p, "StreamChunkError"@, e@),
            ),
            AgentInput::StreamEnded(items) => if tool_calls(items@).len() == 0 {
                ends_with(post, action, |p: Payload| p == Payload::Completed)
            } else {
                &&& post.phase() == Phase::Recording
                &&& post.calls() == tool_calls(items@)
                &&& post.cursor() == 0
                &&& action == AgentAction::RecordExchange
            },
            _ => halts(post, action),
        },
        Phase::Relaying => match input {
            AgentInput::Emitted(true) => moves(pre, post, Phase::Streaming) && action
                == AgentAction::NextChunk,
            _ => halts(post, action),
        },
        Phase::Recording => match input {
            AgentInput::Recorded => moves(pre, post, Phase::Approving) && asks_for(
                action,
                pre.current_call(),
            ),
            _ => halts(post, action),
        },
        Phase::Approving => match input {
            AgentInput::ApprovalAnswered(Some(Ok(()))) => {
                let (id, name, icon, html) = requested_lens(pre.current_call().arguments_json@);
                match lens_verdict(id, name, icon, html) {
                    Err(message) => ends_with(
                        post,
                        action,
                        |p: Payload| is_error_event(p, "LensValidationError"@, message),
                    ),
                    Ok(()) => {
                        &&& post.phase() == Phase::Writing
                        &&& post.calls() == pre.calls()
                        &&& post.cursor() == pre.cursor()
                        &&& action matches AgentAction::WriteLens(lens)
                        &&& (lens.id@, lens.name@, lens.icon@, lens.html@) == (id, name, icon, html)
                        &&& post.lens() == Some(lens)
                    },
                }
            },
            AgentInput::ApprovalAnswered(Some(Err(reason))) => {
                &&& moves(pre, post, Phase::Reporting)
                &&& action matches AgentAction::AddToolResult { index, output }
                &&& index == pre.cursor()
                &&& output matches ToolOutput::Denied { message }
                &&& message@ == denial_text(reason@)
            },
            _ => halts(post, action),
        },
        Phase::Writing => match input {
            AgentInput::LensWritten(Ok(())) => {
                &&& moves(pre, post, Phase::Announcing)
                &&& action matches AgentAction::Emit(p) && announces(p, pre.lens().unwrap())
            },
            AgentInput::LensWritten(Err(e)) => ends_with(
                post,
                action,
                |p: Payload| is_error_event(p, "LensWriteError"@, e@),
            ),
            _ => halts(post, action),
        },
        Phase::Announcing => match input {
            AgentInput::Emitted(true) => {
                &&& moves(pre, post, Phase::Reporting)
                &&& action matches AgentAction::AddToolResult { index, output }
                &&& index == pre.cursor()
                &&& output matches ToolOutput::Saved { id, report }
                &&& id@ == pre.lens().unwrap().id@
                &&& report@ == saved_report_text(pre.lens().unwrap().id@)
            },
            _ => halts(post, action),
        },
        Phase::Reporting => match input {
            AgentInput::Recorded => if pre.cursor() + 1 < pre.calls().len() {
                &&& post.phase() == Phase::Approving
                &&& post.calls() == pre.calls()
                &&& post.cursor() == pre.cursor() + 1
                &&& asks_for(action, pre.calls()[pre.cursor() + 1])
            } else {
                moves(pre, post, Phase::Opening) && action == AgentAction::Resume
            },
            _ => halts(post, action),
        },
        Phase::Done => halts(post, action),
    }
}

fn error_event(code: &str, message: String) -> (p: Payload)
    ensures
        is_error_event(p, code@, message@),
{
    Payload::Error(RuntimeError { code: code.to_owned(), message, retryable: false })
}

fn ask(call: &ToolCallRequest) -> (a: AgentAction)
    ensures
        asks_for(a, *call),
{
    AgentAction::AskApproval {
        call_id: call.call_id.clone(),
        tool_name: call.name.clone(),
        arguments_json: call.arguments_json.clone(),
    }
}

impl AgentTurn {
    fn done() -> (t: AgentTurn)
        ensures
            t.phase() == Phase::Done,
    {
        AgentTurn { phase: Phase::Done, calls: Vec::new(), cursor: 0, lens: None }
    }

    /// Answers what the outside world reports with the run's next action.
    pub fn step(&mut self, input: AgentInput) -> (action: AgentAction)
        ensures
            turn_step(*old(self), input, *final(self), action),
    {
        proof {
            use_type_invariant(&*self);
        }
        let mut pre = AgentTurn::done();
        std::mem::swap(&mut pre, self);
        proof {
            use_type_invariant(&pre);
        }
        let ghost before = pre;
        let AgentTurn { phase, calls, cursor, lens } = pre;
        match phase {
            Phase::Starting => match input {
                AgentInput::Emitted(true) => {
                    *self = AgentTurn { phase: Phase::Opening, calls, cursor, lens };
                    AgentAction::OpenStream
                },
                _ => AgentAction::Stop,
            },
            Phase::Opening => match input {
                AgentInput::StreamOpened(Ok(())) => {
                    *self = AgentTurn { phase: Phase::Streaming, calls, cursor, lens };
                    AgentAction::NextChunk
                },
                AgentInput::StreamOpened(Err(e)) => AgentAction::EmitFinal(
                    error_event("StreamError", e),
                ),
                _ => AgentAction::Stop,
            },
            Phase::Streaming => match input {
                AgentInput::Chunk(StreamChunk::Text(t)) => {
                    if t.as_str().unicode_len() > 0 {
                        *self = AgentTurn { phase: Phase::Relaying, calls, cursor, lens };
                        AgentAction::Emit(Payload::TextDelta(t))
                    } else {
                        *self = AgentTurn { phase: Phase::Streaming, calls, cursor, lens };
                        AgentAction::NextChunk
                    }
                },
                AgentInput::Chunk(StreamChunk::Other) => {
                    *self = AgentTurn { phase: Phase::Streaming, calls, cursor, lens };
                    AgentAction::NextChunk
                },
                AgentInput::Chunk(StreamChunk::Failed(e)) => AgentAction::EmitFinal(
                    error_event("StreamChunkError", e),
                ),
                AgentInput::StreamEnded(items) => {
                    let found = tool_calls_of(items);
                    if found.len() == 0 {
                        AgentAction::EmitFinal(Payload::Completed)
                    } else {
                        *self = AgentTurn { phase: Phase::Recording, calls: found, cursor: 0, lens };
                        AgentAction::RecordExchange
                    }
                },
                _ => AgentAction::Stop,
            },
            Phase::Relaying => match input {
                AgentInput::Emitted(true) => {
                    *self = AgentTurn { phase: Phase::Streaming, calls, cursor, lens };
                    AgentAction::NextChunk
                },
                _ => AgentAction::Stop,
            },
            Phase::Recording => match input {
                AgentInput::Recorded => {
                    let action = ask(&calls[cursor]);
                    *self = AgentTurn { phase: Phase::Approving, calls, cursor, lens };
                    action
                },
                _ => AgentAction::Stop,
            },
            Phase::Approving => match input {
                AgentInput::ApprovalAnswered(Some(Ok(()))) => {
                    let wanted = lens_arguments(calls[cursor].arguments_json.as_str());
                    match validate(
                        wanted.id.as_str(),
                        wanted.name.as_str(),
                        wanted.icon.as_str(),
                        wanted.html.as_str(),
                    ) {
                        Err(message) => AgentAction::EmitFinal(
                            error_event("LensValidationError", message),
                        ),
                        Ok(()) => {
                            let kept = LensSnapshot {
                                id: wanted.id.clone(),
                                name: wanted.name.clone(),
                                icon: wanted.icon.clone(),
                                html: wanted.html.clone(),
                            };
                            *self = AgentTurn {
                                phase: Phase::Writing,
                                calls,
                                cursor,
                                lens: Some(kept),
                            };
                            AgentAction::WriteLens(wanted)
                        },
                    }
                },
                AgentInput::ApprovalAnswered(Some(Err(reason))) => {
                    let mut message = "Tool call denied by user: ".to_owned();
                    message.append(reason.as_str());
                    *self = AgentTurn { phase: Phase::Reporting, calls, cursor, lens };
                    AgentAction::AddToolResult { index: cursor, output: ToolOutput::Denied { message } }
                },
                _ => AgentAction::Stop,
            },
            Phase::Writing => match input {
                AgentInput::LensWritten(Ok(())) => {
                    let action = match &lens {
                        Some(l) => AgentAction::Emit(
                            Payload::LensChanged(
                                LensChanged {
                                    id: l.id.clone(),
                                    name: l.name.clone(),
                                    icon: l.icon.clone(),
                                    html: l.html.clone(),
                                },
                            ),
                        ),
                        None => AgentAction::Stop,
                    };
                    *self = AgentTurn { phase: Phase::Announcing, calls, cursor, lens };
                    action
                },
                AgentInput::LensWritten(Err(e)) => AgentAction::EmitFinal(
                    error_event("LensWriteError", e),
                ),
                _ => AgentAction::Stop,
            },
            Phase::Announcing => match input {
                AgentInput::Emitted(true) => {
                    let (id, report) = match &lens {
                        Some(l) => (l.id.clone(), saved_report(l.id.as_str())),
                        None => (String::new(), String::new()),
                    };
                    *self = AgentTurn { phase: Phase::Reporting, calls, cursor, lens };
                    AgentAction::AddToolResult { index: cursor, output: ToolOutput::Saved { id, report } }
                },
                _ => AgentAction::Stop,
            },
            Phase::Reporting => match input {
                AgentInput::Recorded => {
                    if cursor < calls.len() && calls.len() - cursor > 1 {
                        let action = ask(&calls[cursor + 1]);
                        *self = AgentTurn { phase: Phase::Approving, calls, cursor: cursor + 1, lens };
                        action
                    } else {
                        *self = AgentTurn { phase: Phase::Opening, calls, cursor, lens };
                        AgentAction::Resume
                    }
                },
                _ => AgentAction::Stop,
            },
            Phase::Done => AgentAction::Stop,
        }
    }
}

/// A run writes only a lens that passes validation, and only the lens that
/// the approved call's arguments ask for.
pub proof fn written_lenses_are_valid(pre: AgentTurn, input: AgentInput, post: AgentTurn, action: AgentAction)
    requires
        turn_step(pre, input, post, action),
        action is WriteLens,
    ensures
        pre.phase() == Phase::Approving,
        input matches AgentInput::ApprovalAnswered(Some(Ok(_))),
        action matches AgentAction::WriteLens(lens) && lens_verdict(lens.id@, lens.name@, lens.icon@, lens.html@) is Ok
            && (lens.id@, lens.name@, lens.icon@, lens.html@) == requested_lens(pre.current_call().arguments_json@),
{
}

/// The host hears of a lens only once it is written, and hears of exactly
/// the lens that was written.
pub proof fn announced_lens_is_written_lens(
    s0: AgentTurn,
    i0: AgentInput,
    s1: AgentTurn,
    a0: AgentAction,
    i1: AgentInput,
    s2: AgentTurn,
    a1: AgentAction,
)
    requires
        turn_step(s0, i0, s1, a0),
        a0 is WriteLens,
        turn_step(s1, i1, s2, a1),
    ensures
        (i1 matches AgentInput::LensWritten(Ok(_))) <==> a1 is Emit,
        a1 matches AgentAction::Emit(p) ==> a0 matches AgentAction::WriteLens(lens) && announces(p, lens),
{
}

/// A run says that it completed only when the model's answer asks for no tool call.
pub proof fn completes_only_without_tool_calls(pre: AgentTurn, input: AgentInput, post: AgentTurn, action: AgentAction)
    requires
        turn_step(pre, input, post, action),
        action == AgentAction::EmitFinal(Payload::Completed),
    ensures
        pre.phase() == Phase::Streaming,
        input matches AgentInput::StreamEnded(items) && tool_calls(items@).len() == 0,
{
}

/// Text reaches the host exactly as the model streamed it, and only when it is not empty.
pub proof fn text_is_relayed_unchanged(pre: AgentTurn, input: AgentInput, post: AgentTurn, action: AgentAction)
    requires
        turn_step(pre, input, post, action),
        action matches AgentAction::Emit(Payload::TextDelta(_)),
    ensures
        action matches AgentAction::Emit(Payload::TextDelta(t)) && input == AgentInput::Chunk(StreamChunk::Text(t)) && t@.len() > 0,
{
}

/// Every text that the model streams reaches the host, white space included:
/// in the streaming phase a chunk of text that is not empty is sent on as it
/// is, and the run waits for it to arrive; only an empty text is skipped.
pub proof fn every_nonempty_text_is_relayed(pre: AgentTurn, t: String, post: AgentTurn, action: AgentAction)
    requires
        pre.phase() == Phase::Streaming,
        turn_step(pre, AgentInput::Chunk(StreamChunk::Text(t)), post, action),
    ensures
        t@.len() > 0 ==> action == AgentAction::Emit(Payload::TextDelta(t)) && post.phase()
            == Phase::Relaying,
        t@.len() == 0 ==> action == AgentAction::NextChunk && post.phase() == Phase::Streaming,
{
}

/// A last event ends the run: after a completion or an error is sent, the run is over.
pub proof fn final_event_ends_the_run(pre: AgentTurn, input: AgentInput, post: AgentTurn, action: AgentAction)
    requires
        turn_step(pre, input, post, action),
        action is EmitFinal || action is Stop,
    ensures
        post.phase() == Phase::Done,
{
}

/// A run that is over stays over: whatever comes, it asks for nothing more.
pub proof fn finished_run_stays_finished(pre: AgentTurn, input: AgentInput, post: AgentTurn, action: AgentAction)
    requires
        turn_step(pre, input, post, action),
        pre.phase() == Phase::Done,
    ensures
        post.phase() == Phase::Done,
        action == AgentAction::Stop,
{
}

/// Every tool result answers the call that is being carried out, and the
/// calls are carried out in order, each once.
pub proof fn tool_results_follow_the_calls(pre: AgentTurn, input: AgentInput, post: AgentTurn, action: AgentAction)
    requires
        turn_step(pre, input, post, action),
    ensures
        action matches AgentAction::AddToolResult { index, .. } ==> index == pre.cursor() && post.cursor() == pre.cursor()
            && post.calls() == pre.calls(),
        action is AskApproval ==> post.calls() == pre.calls() || pre.phase() == Phase::Recording,
        action is AskApproval && pre.phase() == Phase::Reporting ==> post.cursor() == pre.cursor() + 1,
        action is AskApproval && pre.phase() == Phase::Recording ==> post.cursor() == pre.cursor(),
        action is Resume ==> pre.phase() == Phase::Reporting && pre.cursor() + 1 >= pre.calls().len(),
{
}

/// A saved lens is reported to the model as the JSON object with `ok` true,
/// the id of the lens that was written and announced, and the fixed message.
pub proof fn saved_lens_is_reported(pre: AgentTurn, input: AgentInput, post: AgentTurn, action: AgentAction)
    requires
        turn_step(pre, input, post, action),
        action matches AgentAction::AddToolResult { output: ToolOutput::Saved { .. }, .. },
    ensures
        pre.phase() == Phase::Announcing,
        input == AgentInput::Emitted(true),
        action matches AgentAction::AddToolResult { output: ToolOutput::Saved { id, report }, .. } && id@
            == pre.lens().unwrap().id@ && report@ == saved_report_text(pre.lens().unwrap().id@),
{
}

/// A refused tool call tells the model why, in the user's own words.
pub proof fn denial_carries_the_reason(pre: AgentTurn, input: AgentInput, post: AgentTurn, action: AgentAction)
    requires
        turn_step(pre, input, post, action),
        action matches AgentAction::AddToolResult { output: ToolOutput::Denied { .. }, .. },
    ensures
        input matches AgentInput::ApprovalAnswered(Some(Err(reason))) && action matches AgentAction::AddToolResult {
            output: ToolOutput::Denied { message },
            ..
        } && message@ == denial_text(reason@),
{
}

} // verus!
