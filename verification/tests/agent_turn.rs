use chamber_agent::agent_turn::{
    tool_calls_of, AgentAction, AgentInput, AgentTurn, AssistantItem, StreamChunk,
    ToolCallRequest, ToolOutput,
};
use chamber_agent::lens_store::LensSnapshot;
use chamber_agent::protocol::{LensChanged, Payload, RuntimeError};
use chamber_agent::tool_args::{lens_arguments, saved_report};

const ARGS: &str = r#"{"id":"release-board","name":"Release Board","icon":"layout","html":"<html><body>Ready</body></html>"}"#;

fn call(id: &str, args: &str) -> ToolCallRequest {
    ToolCallRequest { call_id: id.to_owned(), name: "lens_upsert".to_owned(), arguments_json: args.to_owned() }
}

fn ask(id: &str, args: &str) -> AgentAction {
    AgentAction::AskApproval {
        call_id: id.to_owned(),
        tool_name: "lens_upsert".to_owned(),
        arguments_json: args.to_owned(),
    }
}

fn streaming_turn() -> AgentTurn {
    let (mut turn, first) = AgentTurn::start();
    assert_eq!(first, AgentAction::Emit(Payload::Started));
    assert_eq!(turn.step(AgentInput::Emitted(true)), AgentAction::OpenStream);
    assert_eq!(turn.step(AgentInput::StreamOpened(Ok(()))), AgentAction::NextChunk);
    turn
}

#[test]
fn reads_lens_arguments() {
    let lens = lens_arguments(ARGS);
    assert_eq!(
        lens,
        LensSnapshot {
            id: "release-board".to_owned(),
            name: "Release Board".to_owned(),
            icon: "layout".to_owned(),
            html: "<html><body>Ready</body></html>".to_owned(),
        }
    );
    let partial = lens_arguments(r#"{"id": 7, "name": "N"}"#);
    assert_eq!(partial.id, "");
    assert_eq!(partial.name, "N");
    assert_eq!(partial.html, "");
    assert_eq!(lens_arguments("not json").name, "");
}

#[test]
fn filters_tool_calls() {
    let calls = tool_calls_of(vec![
        AssistantItem::Text,
        AssistantItem::ToolCall(call("a", "{}")),
        AssistantItem::Other,
        AssistantItem::ToolCall(call("b", "[]")),
    ]);
    assert_eq!(calls, vec![call("a", "{}"), call("b", "[]")]);
}

#[test]
fn plain_answer_streams_and_completes() {
    let mut turn = streaming_turn();
    assert_eq!(
        turn.step(AgentInput::Chunk(StreamChunk::Text("Hel".to_owned()))),
        AgentAction::Emit(Payload::TextDelta("Hel".to_owned()))
    );
    assert_eq!(turn.step(AgentInput::Emitted(true)), AgentAction::NextChunk);
    assert_eq!(turn.step(AgentInput::Chunk(StreamChunk::Text(String::new()))), AgentAction::NextChunk);
    assert_eq!(turn.step(AgentInput::Chunk(StreamChunk::Other)), AgentAction::NextChunk);
    assert_eq!(
        turn.step(AgentInput::StreamEnded(vec![AssistantItem::Text])),
        AgentAction::EmitFinal(Payload::Completed)
    );
    assert_eq!(turn.step(AgentInput::Emitted(true)), AgentAction::Stop);
}

#[test]
fn approved_lens_is_written_announced_and_reported() {
    let mut turn = streaming_turn();
    assert_eq!(
        turn.step(AgentInput::StreamEnded(vec![AssistantItem::Text, AssistantItem::ToolCall(call("c1", ARGS))])),
        AgentAction::RecordExchange
    );
    assert_eq!(turn.step(AgentInput::Recorded), ask("c1", ARGS));
    let lens = LensSnapshot {
        id: "release-board".to_owned(),
        name: "Release Board".to_owned(),
        icon: "layout".to_owned(),
        html: "<html><body>Ready</body></html>".to_owned(),
    };
    assert_eq!(turn.step(AgentInput::ApprovalAnswered(Some(Ok(())))), AgentAction::WriteLens(lens));
    assert_eq!(
        turn.step(AgentInput::LensWritten(Ok(()))),
        AgentAction::Emit(Payload::LensChanged(LensChanged {
            id: "release-board".to_owned(),
            name: "Release Board".to_owned(),
            icon: "layout".to_owned(),
            html: "<html><body>Ready</body></html>".to_owned(),
        }))
    );
    assert_eq!(
        turn.step(AgentInput::Emitted(true)),
        AgentAction::AddToolResult {
            index: 0,
            output: ToolOutput::Saved {
                id: "release-board".to_owned(),
                report: r#"{"id":"release-board","message":"Lens saved and displayed","ok":true}"#.to_owned(),
            },
        }
    );
    assert_eq!(turn.step(AgentInput::Recorded), AgentAction::Resume);
    assert_eq!(turn.step(AgentInput::StreamOpened(Ok(()))), AgentAction::NextChunk);
    assert_eq!(turn.step(AgentInput::StreamEnded(vec![])), AgentAction::EmitFinal(Payload::Completed));
}

#[test]
fn denied_calls_are_reported_in_order() {
    let mut turn = streaming_turn();
    assert_eq!(
        turn.step(AgentInput::StreamEnded(vec![
            AssistantItem::ToolCall(call("c1", ARGS)),
            AssistantItem::ToolCall(call("c2", "{}")),
        ])),
        AgentAction::RecordExchange
    );
    assert_eq!(turn.step(AgentInput::Recorded), ask("c1", ARGS));
    assert_eq!(
        turn.step(AgentInput::ApprovalAnswered(Some(Err("not now".to_owned())))),
        AgentAction::AddToolResult {
            index: 0,
            output: ToolOutput::Denied { message: "Tool call denied by user: not now".to_owned() },
        }
    );
    assert_eq!(turn.step(AgentInput::Recorded), ask("c2", "{}"));
    assert_eq!(
        turn.step(AgentInput::ApprovalAnswered(Some(Err("No decision provided".to_owned())))),
        AgentAction::AddToolResult {
            index: 1,
            output: ToolOutput::Denied { message: "Tool call denied by user: No decision provided".to_owned() },
        }
    );
    assert_eq!(turn.step(AgentInput::Recorded), AgentAction::Resume);
}

fn error(code: &str, message: &str) -> AgentAction {
    AgentAction::EmitFinal(Payload::Error(RuntimeError {
        code: code.to_owned(),
        message: message.to_owned(),
        retryable: false,
    }))
}

#[test]
fn invalid_lens_ends_the_run() {
    let mut turn = streaming_turn();
    turn.step(AgentInput::StreamEnded(vec![AssistantItem::ToolCall(call("c1", r#"{"id":"Bad Id"}"#))]));
    turn.step(AgentInput::Recorded);
    assert_eq!(
        turn.step(AgentInput::ApprovalAnswered(Some(Ok(())))),
        error("LensValidationError", "Lens id must use 1-64 lowercase letters, numbers, or hyphens")
    );
    assert_eq!(turn.step(AgentInput::Recorded), AgentAction::Stop);
}

#[test]
fn failures_end_the_run() {
    let (mut turn, _) = AgentTurn::start();
    assert_eq!(turn.step(AgentInput::Emitted(false)), AgentAction::Stop);

    let (mut turn, _) = AgentTurn::start();
    turn.step(AgentInput::Emitted(true));
    assert_eq!(turn.step(AgentInput::StreamOpened(Err("refused".to_owned()))), error("StreamError", "refused"));

    let mut turn = streaming_turn();
    assert_eq!(
        turn.step(AgentInput::Chunk(StreamChunk::Failed("cut".to_owned()))),
        error("StreamChunkError", "cut")
    );

    let mut turn = streaming_turn();
    turn.step(AgentInput::StreamEnded(vec![AssistantItem::ToolCall(call("c1", ARGS))]));
    turn.step(AgentInput::Recorded);
    assert_eq!(turn.step(AgentInput::ApprovalAnswered(None)), AgentAction::Stop);

    let mut turn = streaming_turn();
    turn.step(AgentInput::StreamEnded(vec![AssistantItem::ToolCall(call("c1", ARGS))]));
    turn.step(AgentInput::Recorded);
    turn.step(AgentInput::ApprovalAnswered(Some(Ok(()))));
    assert_eq!(turn.step(AgentInput::LensWritten(Err("disk full".to_owned()))), error("LensWriteError", "disk full"));

    let mut turn = streaming_turn();
    assert_eq!(turn.step(AgentInput::Recorded), AgentAction::Stop);
    assert_eq!(turn.step(AgentInput::StreamOpened(Ok(()))), AgentAction::Stop);
}

#[test]
fn saved_report_is_serde_json_object() {
    let mut members = serde_json::Map::new();
    members.insert("ok".to_owned(), serde_json::Value::Bool(true));
    members.insert("id".to_owned(), serde_json::Value::String("a\"b".to_owned()));
    members.insert("message".to_owned(), serde_json::Value::String("Lens saved and displayed".to_owned()));
    assert_eq!(saved_report("a\"b"), serde_json::Value::Object(members).to_string());
    assert_eq!(
        saved_report("board-2"),
        r#"{"id":"board-2","message":"Lens saved and displayed","ok":true}"#
    );
}
