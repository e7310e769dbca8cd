use codex_gateway::chat::{ChatStream, completion, completion_at};
use codex_gateway::codec::{parse, to_text};
use codex_gateway::error::{ApiError, AppServerError};
use codex_gateway::frame::Frame;
use codex_gateway::json::Json;
use codex_gateway::responses::{
    ResponsesStream, completed_response, message_item, response_object_at, response_object,
};
use codex_gateway::translate::ForcedTool;
use codex_gateway::turn::{Collected, Progress, TurnCollector, TurnEvent, TurnInput};

fn delta(text: &str) -> TurnInput {
    TurnInput::Event(TurnEvent::Delta(text.to_owned()))
}

fn completed(status: &str, error: Option<&str>) -> TurnInput {
    TurnInput::Event(TurnEvent::Completed {
        status: status.to_owned(),
        error: error.map(str::to_owned),
    })
}

fn failed(message: &str) -> TurnInput {
    TurnInput::Event(TurnEvent::Error(message.to_owned()))
}

fn tool() -> ForcedTool {
    ForcedTool { name: "title".to_owned(), schema: Json::Null }
}

fn texts(frames: &[Frame]) -> Vec<String> {
    frames.iter().map(Frame::data).collect()
}

fn value(frame: &Frame) -> Json {
    parse(&frame.data()).unwrap()
}

fn chat_stream(forced: Option<&ForcedTool>) -> (ChatStream, Frame) {
    ChatStream::open_at("chatcmpl-1".to_owned(), 5, "codex".to_owned(), forced, "call_1")
}

fn responses_stream() -> (ResponsesStream, Vec<Frame>) {
    ResponsesStream::open_at(
        "resp_1".to_owned(),
        "codex".to_owned(),
        "msg_1".to_owned(),
        5,
        6,
    )
}

fn first(value: &Json, key: &str) -> Json {
    match value.get(key) {
        Some(Json::Array(items)) => items[0].clone(),
        other => panic!("{other:?}"),
    }
}

#[test]
fn completions_hold_the_text() {
    assert_eq!(
        to_text(&completion_at("chatcmpl-1", 5, "codex", None, "call_1", "pong")),
        concat_lines(&[
            "{\"choices\":[{\"finish_reason\":\"stop\",\"index\":0,",
            "\"message\":{\"content\":\"pong\",\"role\":\"assistant\"}}],",
            "\"created\":5,\"id\":\"chatcmpl-1\",\"model\":\"codex\",\"object\":\"chat.completion\",",
            "\"usage\":{\"completion_tokens\":0,\"prompt_tokens\":0,\"total_tokens\":0}}",
        ])
    );
}

fn concat_lines(parts: &[&str]) -> String {
    parts.concat()
}

#[test]
fn completions_hold_forced_calls() {
    let forced = tool();
    let body = completion_at("chatcmpl-1", 5, "codex", Some(&forced), "call_1", "{}");
    let choice = first(&body, "choices");
    assert_eq!(choice.text_at("finish_reason"), Some("tool_calls"));
    assert_eq!(
        to_text(choice.get("message").unwrap()),
        concat_lines(&[
            "{\"content\":null,\"role\":\"assistant\",\"tool_calls\":[{",
            "\"function\":{\"arguments\":\"{}\",\"name\":\"title\"},",
            "\"id\":\"call_1\",\"type\":\"function\"}]}",
        ])
    );
}

#[test]
fn completions_get_fresh_identifiers() {
    let forced = tool();
    let body = completion("codex", Some(&forced), "{}");
    assert!(body.text_at("id").unwrap().starts_with("chatcmpl-"));
    assert!(body.get("created").and_then(Json::as_u64).unwrap() > 1_600_000_000);
    let message = first(&body, "choices").get("message").unwrap().clone();
    assert!(first(&message, "tool_calls").text_at("id").unwrap().starts_with("call_"));
}

#[test]
fn chat_streams_send_texts_in_their_order() {
    let (mut stream, opening) = chat_stream(None);
    assert_eq!(
        opening.data(),
        concat_lines(&[
            "{\"choices\":[{\"delta\":{\"content\":\"\",\"role\":\"assistant\"},",
            "\"finish_reason\":null,\"index\":0}],\"created\":5,\"id\":\"chatcmpl-1\",",
            "\"model\":\"codex\",\"object\":\"chat.completion.chunk\"}",
        ])
    );
    assert_eq!(opening.event(), None);
    let mut read = String::new();
    for text in ["po", "", "ng\n"] {
        let output = stream.step(delta(text));
        assert!(!output.interrupt && !output.finished);
        assert_eq!(output.frames.len(), 1);
        let choice = first(&value(&output.frames[0]), "choices");
        assert!(choice.get("finish_reason").unwrap().is_null());
        read.push_str(choice.text_in("delta", "content").unwrap());
    }
    assert_eq!(read, "pong\n");
    let output = stream.step(completed("completed", Some("ignored")));
    assert!(!output.interrupt && output.finished);
    assert_eq!(
        texts(&output.frames),
        [
            concat_lines(&[
                "{\"choices\":[{\"delta\":{},\"finish_reason\":\"stop\",\"index\":0}],",
                "\"created\":5,\"id\":\"chatcmpl-1\",\"model\":\"codex\",",
                "\"object\":\"chat.completion.chunk\"}",
            ]),
            concat_lines(&[
                "{\"choices\":[],\"created\":5,\"id\":\"chatcmpl-1\",\"model\":\"codex\",",
                "\"object\":\"chat.completion.chunk\",",
                "\"usage\":{\"completion_tokens\":0,\"prompt_tokens\":0,\"total_tokens\":0}}",
            ]),
            "[DONE]".to_owned(),
        ]
    );
}

#[test]
fn forced_calls_stream_their_arguments() {
    let forced = tool();
    let (mut stream, opening) = chat_stream(Some(&forced));
    let opened = first(&value(&opening), "choices").get("delta").unwrap().clone();
    assert_eq!(
        to_text(&opened),
        concat_lines(&[
            "{\"role\":\"assistant\",\"tool_calls\":[{",
            "\"function\":{\"arguments\":\"\",\"name\":\"title\"},",
            "\"id\":\"call_1\",\"index\":0,\"type\":\"function\"}]}",
        ])
    );
    let output = stream.step(delta("{}"));
    let sent = first(&value(&output.frames[0]), "choices").get("delta").unwrap().clone();
    assert_eq!(
        to_text(&sent),
        "{\"tool_calls\":[{\"function\":{\"arguments\":\"{}\"},\"index\":0}]}"
    );
    let output = stream.step(completed("completed", None));
    let reason = first(&value(&output.frames[0]), "choices");
    assert_eq!(reason.text_at("finish_reason"), Some("tool_calls"));
}

#[test]
fn failed_chat_streams_say_why() {
    let cases = [
        (completed("failed", Some("boom")), "boom", false),
        (completed("interrupted", None), "Codex turn ended with status interrupted", false),
        (failed("broken"), "broken", false),
        (TurnInput::Closed, "Codex event stream closed", false),
        (TurnInput::TimedOut, "Codex turn timed out", true),
    ];
    for (input, reason, interrupt) in cases {
        let (mut stream, _) = chat_stream(None);
        let output = stream.step(input);
        assert_eq!(output.interrupt, interrupt);
        assert!(output.finished);
        assert_eq!(output.frames.len(), 2);
        assert_eq!(
            output.frames[0].data(),
            format!(
                "{{\"error\":{{\"code\":\"codex_turn_failed\",\"message\":\"{reason}\",\"type\":\"server_error\"}}}}"
            )
        );
        assert_eq!(output.frames[1].data(), "[DONE]");
    }
}

#[test]
fn abandoned_chat_streams_cancel_once() {
    let (mut stream, _) = ChatStream::open("codex".to_owned(), None);
    let output = stream.step(TurnInput::Disconnected);
    assert!(output.interrupt && output.finished && output.frames.is_empty());
    for input in [TurnInput::TimedOut, TurnInput::Disconnected, delta("late")] {
        let output = stream.step(input);
        assert!(!output.interrupt && output.finished && output.frames.is_empty());
    }
}

#[test]
fn responses_streams_number_their_events() {
    let (mut stream, mut frames) = responses_stream();
    assert_eq!(frames.len(), 4);
    frames.extend(stream.step_at(delta("po"), 7).frames);
    frames.extend(stream.step(delta("ng")).frames);
    let output = stream.step_at(completed("completed", None), 8);
    assert!(output.finished && !output.interrupt);
    frames.extend(output.frames);
    let names = [
        "response.created",
        "response.in_progress",
        "response.output_item.added",
        "response.content_part.added",
        "response.output_text.delta",
        "response.output_text.delta",
        "response.output_text.done",
        "response.content_part.done",
        "response.output_item.done",
        "response.completed",
    ];
    assert_eq!(frames.len(), names.len());
    for (index, frame) in frames.iter().enumerate() {
        assert_eq!(frame.event(), Some(names[index]));
        let event = value(frame);
        assert_eq!(event.text_at("type"), Some(names[index]));
        assert_eq!(
            event.get("sequence_number").and_then(Json::as_u64),
            Some(index as u64 + 1)
        );
    }
    assert_eq!(
        frames[4].data(),
        concat_lines(&[
            "{\"content_index\":0,\"delta\":\"po\",\"item_id\":\"msg_1\",\"output_index\":0,",
            "\"sequence_number\":5,\"type\":\"response.output_text.delta\"}",
        ])
    );
    assert_eq!(value(&frames[6]).text_at("text"), Some("pong"));
    assert_eq!(value(&frames[7]).text_in("part", "text"), Some("pong"));
    assert_eq!(value(&frames[8]).text_in("item", "status"), Some("completed"));
    let response = value(&frames[9]).get("response").unwrap().clone();
    assert_eq!(response.text_at("status"), Some("completed"));
    assert_eq!(response.get("created_at").and_then(Json::as_u64), Some(8));
    let item = first(&response, "output");
    assert_eq!(to_text(&item), to_text(&message_item("msg_1", "pong", "completed")));
    let created = value(&frames[0]).get("response").unwrap().clone();
    assert_eq!(created.text_at("status"), Some("in_progress"));
    assert_eq!(to_text(created.get("output").unwrap()), "[]");
}

#[test]
fn failed_responses_say_why_and_hold_no_output() {
    let (mut stream, _) = responses_stream();
    let _ = stream.step_at(delta("part"), 7);
    let output = stream.step_at(TurnInput::TimedOut, 9);
    assert!(output.interrupt && output.finished);
    assert_eq!(output.frames.len(), 1);
    assert_eq!(output.frames[0].event(), Some("response.failed"));
    let event = value(&output.frames[0]);
    assert_eq!(event.get("sequence_number").and_then(Json::as_u64), Some(6));
    let response = event.get("response").unwrap();
    assert_eq!(response.text_at("status"), Some("failed"));
    assert_eq!(
        to_text(response.get("error").unwrap()),
        "{\"code\":\"codex_turn_failed\",\"message\":\"Codex turn timed out\"}"
    );
    assert_eq!(to_text(response.get("output").unwrap()), "[]");
}

#[test]
fn abandoned_responses_streams_cancel_once() {
    let (mut stream, opening) = ResponsesStream::open("codex".to_owned());
    assert!(value(&opening[0]).text_in("response", "id").unwrap().starts_with("resp_"));
    for input in [delta("x"), completed("completed", None), TurnInput::Disconnected] {
        assert!(stream.room(&input));
    }
    let output = stream.step(TurnInput::Disconnected);
    assert!(output.interrupt && output.finished && output.frames.is_empty());
    let output = stream.step(completed("completed", None));
    assert!(!output.interrupt && output.finished && output.frames.is_empty());
}

#[test]
fn responses_are_written_out_in_full() {
    assert_eq!(
        to_text(&response_object_at("resp_1", 5, "codex", "", "in_progress", None, "msg_1")),
        concat_lines(&[
            "{\"created_at\":5,\"error\":null,\"id\":\"resp_1\",\"incomplete_details\":null,",
            "\"instructions\":null,\"metadata\":{},\"model\":\"codex\",\"object\":\"response\",",
            "\"output\":[],\"parallel_tool_calls\":true,\"previous_response_id\":null,",
            "\"status\":\"in_progress\",\"store\":false,\"temperature\":null,",
            "\"text\":{\"format\":{\"type\":\"text\"}},\"tool_choice\":\"auto\",\"tools\":[],",
            "\"top_p\":null,\"truncation\":\"disabled\",\"usage\":{\"input_tokens\":0,",
            "\"input_tokens_details\":{\"cached_tokens\":0},\"output_tokens\":0,",
            "\"output_tokens_details\":{\"reasoning_tokens\":0},\"total_tokens\":0}}",
        ])
    );
}

#[test]
fn completed_responses_hold_one_message() {
    let body = completed_response("codex", "pong");
    assert!(body.text_at("id").unwrap().starts_with("resp_"));
    let item = first(&body, "output");
    assert!(item.text_at("id").unwrap().starts_with("msg_"));
    assert_eq!(
        to_text(item.get("content").unwrap()),
        "[{\"annotations\":[],\"text\":\"pong\",\"type\":\"output_text\"}]"
    );
    let given = response_object("resp_1", "codex", "x", "completed", None, Some("msg_9"));
    assert_eq!(first(&given, "output").text_at("id"), Some("msg_9"));
}

#[test]
fn collectors_join_the_texts() {
    let mut collector = TurnCollector::new();
    assert!(matches!(collector.step(delta("po")), Collected::Pending));
    assert!(matches!(collector.step(delta("ng")), Collected::Pending));
    match collector.step(completed("completed", None)) {
        Collected::Answered(Ok(text)) => assert_eq!(text, "pong"),
        other => panic!("{other:?}"),
    }
}

#[test]
fn collectors_report_failures() {
    let cases = [
        (completed("failed", Some("boom")), "boom"),
        (completed("failed", None), "Codex turn ended with status failed"),
        (failed("broken"), "broken"),
        (TurnInput::Closed, "Codex event stream closed"),
        (TurnInput::TimedOut, "Codex turn timed out"),
    ];
    for (input, reason) in cases {
        match TurnCollector::new().step(input) {
            Collected::Answered(Err(error)) => assert_eq!(error, ApiError::server(reason)),
            other => panic!("{other:?}"),
        }
    }
    assert!(matches!(
        TurnCollector::new().step(TurnInput::Disconnected),
        Collected::Abandoned
    ));
}

#[test]
fn turns_are_cancelled_on_timeout_and_disconnect_alone() {
    assert!(TurnInput::TimedOut.cancels());
    assert!(TurnInput::Disconnected.cancels());
    assert!(!TurnInput::Closed.cancels());
    assert!(!delta("x").cancels());
    assert!(!completed("failed", None).cancels());
    assert_eq!(delta("x").progress(), Progress::Text("x".to_owned()));
    assert_eq!(completed("completed", Some("e")).progress(), Progress::Ended(None));
    assert_eq!(TurnInput::Disconnected.progress(), Progress::Abandoned);
}

#[test]
fn errors_are_told_in_words() {
    let cases = [
        (AppServerError::Spawn("x".to_owned()), "failed to start Codex app-server: x"),
        (AppServerError::Closed, "Codex app-server transport closed"),
        (AppServerError::Rpc("x".to_owned()), "Codex app-server RPC failed: x"),
        (AppServerError::Protocol("x".to_owned()), "invalid Codex app-server response: x"),
    ];
    for (error, words) in cases {
        assert_eq!(error.message(), words);
        let refused = ApiError::from(error);
        assert_eq!(refused.status, 500);
        assert_eq!(refused.code, "codex_app_server_error");
        assert_eq!(refused.message, words);
    }
    assert_eq!(
        to_text(&ApiError::bad_request("no").body()),
        "{\"error\":{\"code\":\"invalid_request_error\",\"message\":\"no\",\"type\":\"server_error\"}}"
    );
    assert_eq!(ApiError::bad_request("no").status, 400);
}
