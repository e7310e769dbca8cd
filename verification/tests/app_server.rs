use codex_gateway::api::{health, models, plan_chat_turn, plan_responses_turn};
use codex_gateway::app_server::{
    AppServer, Call, Received, TurnStart, TurnStep, awaited, resume_handshake,
};
use codex_gateway::codec::{parse, to_text};
use codex_gateway::config::{Config, Directory, ListenAddress, Sandbox};
use codex_gateway::error::AppServerError;
use codex_gateway::json::Json;
use codex_gateway::protocol::{
    answer_server_request, answer_server_request_at, initialize_params, initialized_message,
    notification_message,
};
use codex_gateway::translate::{ChatMessage, ChatRequest, ResponsesRequest};
use codex_gateway::turn::TurnEvent;

fn config() -> Config {
    Config {
        listen: ListenAddress::V4 { octets: [127, 0, 0, 1], port: 8787 },
        api_key: Some("secret".to_owned()),
        no_auth: false,
        cwd: Some(Directory { path: "/work".to_owned(), is_absolute: true, is_dir: true }),
        codex_bin: "codex".to_owned(),
        codex_model: None,
        exposed_model: "codex".to_owned(),
        sandbox: Sandbox::WorkspaceWrite,
        timeout_secs: 3600,
    }
}

fn server() -> AppServer<&'static str, &'static str> {
    AppServer::new(config())
}

fn json(text: &str) -> Json {
    parse(text).unwrap()
}

fn call_text(call: &Call) -> String {
    format!("{} {}", call.method, to_text(&call.params))
}

fn answer(message: &str) -> String {
    let message = json(message);
    to_text(&answer_server_request_at(message.get("id").unwrap().clone(), &message, 77))
}

fn with_turn(thread: &str) -> AppServer<&'static str, &'static str> {
    let mut server = server();
    let (start, _) = server.start_turn("hi".to_owned(), None, "events");
    let reply = Json::object(vec![("thread", Json::object(vec![("id", Json::text(thread))]))]);
    match server.resume_turn(start, Ok(reply)) {
        TurnStep::Call(TurnStart::Turn { thread_id }, _) => assert_eq!(thread_id, thread),
        other => panic!("{other:?}"),
    }
    server
}

#[test]
fn requests_are_numbered() {
    let mut server = server();
    let (id, message) = server.rpc("initialize", initialize_params("1.2.3"), "a");
    assert_eq!(id, 1);
    assert_eq!(
        to_text(&message),
        "{\"id\":1,\"method\":\"initialize\",\"params\":{\"capabilities\":{\"experimentalApi\":false},\
         \"clientInfo\":{\"name\":\"codex-responses-bridge\",\"version\":\"1.2.3\"}}}"
    );
    assert_eq!(server.rpc("x", Json::Null, "b").0, 2);
    assert_eq!(to_text(&initialized_message()), "{\"method\":\"initialized\",\"params\":{}}");
    assert_eq!(
        to_text(&notification_message("m", Json::Null)),
        "{\"method\":\"m\",\"params\":null}"
    );
}

#[test]
fn replies_reach_their_requests_once() {
    let mut server = server();
    let _ = server.rpc("x", Json::Null, "a");
    let _ = server.rpc("y", Json::Null, "b");
    match server.receive("{\"id\":2,\"result\":{\"ok\":true}}") {
        Received::Resolve("b", Ok(result)) => assert_eq!(to_text(&result), "{\"ok\":true}"),
        other => panic!("{other:?}"),
    }
    assert!(matches!(server.receive("{\"id\":2,\"result\":1}"), Received::Ignored));
    match server.receive("{\"id\":1}") {
        Received::Resolve("a", Ok(Json::Null)) => {}
        other => panic!("{other:?}"),
    }
}

#[test]
fn replies_come_in_any_order() {
    let mut server = server();
    let names = ["a", "b", "c", "d"];
    for (index, name) in names.into_iter().enumerate() {
        assert_eq!(server.rpc(name, Json::Null, name).0, index as u64 + 1);
    }
    for index in [2, 0, 3, 1] {
        let line = format!("{{\"id\":{},\"result\":\"r{index}\"}}", index + 1);
        match server.receive(&line) {
            Received::Resolve(name, Ok(result)) => {
                assert_eq!(name, names[index]);
                assert_eq!(result.as_str(), Some(format!("r{index}").as_str()));
            }
            other => panic!("{other:?}"),
        }
        let _ = server.rpc("more", Json::Null, "more");
    }
}

#[test]
fn dropped_replies_mean_a_closed_connection() {
    assert!(matches!(awaited(None), Err(AppServerError::Closed)));
    assert!(matches!(awaited(Some(Ok(Json::Bool(true)))), Ok(Json::Bool(true))));
    let failed = AppServerError::Rpc("no".to_owned());
    assert_eq!(awaited(Some(Err(failed.clone()))).unwrap_err(), failed);
}

#[test]
fn the_handshake_ends_with_a_notification() {
    let message = resume_handshake(Ok(Json::Bool(true))).unwrap();
    assert_eq!(to_text(&message), "{\"method\":\"initialized\",\"params\":{}}");
    let failed = AppServerError::Rpc("no".to_owned());
    assert_eq!(resume_handshake(Err(failed.clone())).unwrap_err(), failed);
}

#[test]
fn turns_run_to_their_end() {
    let mut server = with_turn("t1");
    let note = |method: &str, thread: &str| {
        format!(
            "{{\"method\":\"{method}\",\"params\":{{\"threadId\":\"{thread}\",\"delta\":\"{thread}\"}}}}"
        )
    };
    let lines = [
        note("item/agentMessage/delta", "t1"),
        note("turn/completed", "t2"),
        note("item/agentMessage/delta", "t1"),
        "stray".to_owned(),
        note("turn/completed", "t1"),
        note("item/agentMessage/delta", "t1"),
        note("error", "t1"),
    ];
    let mut events = Vec::new();
    for line in lines {
        if let Received::Deliver { thread_id, event, last } = server.receive(&line) {
            assert_eq!(server.turn(&thread_id), Some(&"events"));
            events.push(event);
            if last {
                server.end_turn(&thread_id);
            }
        }
    }
    assert_eq!(
        events,
        [
            TurnEvent::Delta("t1".to_owned()),
            TurnEvent::Delta("t1".to_owned()),
            TurnEvent::Completed { status: "failed".to_owned(), error: None },
        ]
    );
    assert_eq!(server.turn("t1"), None);
}

#[test]
fn failed_replies_carry_the_error() {
    let mut server = server();
    let _ = server.rpc("x", Json::Null, "a");
    match server.receive("{\"id\":1,\"error\":{\"code\": 3, \"a\": 1},\"result\":1}") {
        Received::Resolve("a", Err(error)) => {
            assert_eq!(error, AppServerError::Rpc("{\"a\":1,\"code\":3}".to_owned()));
        }
        other => panic!("{other:?}"),
    }
}

#[test]
fn abandoned_requests_are_forgotten() {
    let mut server = server();
    let (id, _) = server.rpc("x", Json::Null, "a");
    assert_eq!(server.abandon(id), AppServerError::Closed);
    assert!(matches!(server.receive("{\"id\":1,\"result\":1}"), Received::Ignored));
}

#[test]
fn malformed_lines_are_told_apart() {
    let mut server = server();
    assert!(matches!(server.receive("not json"), Received::Malformed));
    assert!(matches!(server.receive("{}"), Received::Ignored));
    assert!(matches!(server.receive("[1]"), Received::Ignored));
    assert!(matches!(server.receive("{\"id\":\"1\",\"result\":1}"), Received::Ignored));
    assert!(matches!(server.receive("{\"id\":-1,\"result\":1}"), Received::Ignored));
}

#[test]
fn threads_are_set_up_by_the_configuration() {
    let (_, call) = server().start_turn("hi".to_owned(), None, "e");
    assert_eq!(
        call_text(&call),
        "thread/start {\"approvalPolicy\":\"never\",\"cwd\":\"/work\",\"ephemeral\":true,\
         \"sandbox\":\"workspace-write\"}"
    );
    let mut full = config();
    full.codex_model = Some("gpt".to_owned());
    full.sandbox = Sandbox::DangerFullAccess;
    full.cwd = None;
    let server: AppServer<(), ()> = AppServer::new(full);
    let (_, call) = server.start_turn("hi".to_owned(), None, ());
    assert_eq!(
        call_text(&call),
        "thread/start {\"approvalPolicy\":\"never\",\"cwd\":null,\"ephemeral\":true,\
         \"model\":\"gpt\",\"sandbox\":\"danger-full-access\"}"
    );
}

#[test]
fn turns_start_on_their_thread() {
    let mut server = server();
    let (start, _) = server.start_turn("hi".to_owned(), Some(json("{\"type\":\"object\"}")), "e");
    let (start, call) = match server.resume_turn(start, Ok(json("{\"thread\":{\"id\":\"t1\"}}"))) {
        TurnStep::Call(start, call) => (start, call),
        other => panic!("{other:?}"),
    };
    assert_eq!(
        call_text(&call),
        "turn/start {\"input\":[{\"text\":\"hi\",\"type\":\"text\"}],\
         \"outputSchema\":{\"type\":\"object\"},\"threadId\":\"t1\"}"
    );
    assert_eq!(server.turn("t1"), Some(&"e"));
    match server.resume_turn(start, Ok(json("{\"turn\":{\"id\":\"u1\"}}"))) {
        TurnStep::Started { thread_id, turn_id } => {
            assert_eq!((thread_id.as_str(), turn_id.as_str()), ("t1", "u1"));
        }
        other => panic!("{other:?}"),
    }
    assert_eq!(server.turn("t1"), Some(&"e"));
    assert_eq!(
        call_text(&server.interrupt("t1", "u1")),
        "turn/interrupt {\"threadId\":\"t1\",\"turnId\":\"u1\"}"
    );
}

#[test]
fn turns_without_identifiers_fail() {
    let mut server = server();
    let (start, _) = server.start_turn("hi".to_owned(), None, "e");
    match server.resume_turn(start, Ok(json("{\"thread\":{\"id\":7}}"))) {
        TurnStep::Failed(AppServerError::Protocol(reason)) => {
            assert_eq!(reason, "thread/start omitted thread.id");
        }
        other => panic!("{other:?}"),
    }
    match server.resume_turn(TurnStart::Turn { thread_id: "t1".to_owned() }, Ok(Json::Null)) {
        TurnStep::Failed(AppServerError::Protocol(reason)) => {
            assert_eq!(reason, "turn/start omitted turn.id");
        }
        other => panic!("{other:?}"),
    }
}

#[test]
fn refused_turns_leave_no_trace() {
    let mut server = with_turn("t1");
    let refused = TurnStart::Turn { thread_id: "t1".to_owned() };
    match server.resume_turn(refused, Err(AppServerError::Closed)) {
        TurnStep::Failed(error) => assert_eq!(error, AppServerError::Closed),
        other => panic!("{other:?}"),
    }
    assert_eq!(server.turn("t1"), None);
    let (start, _) = server.start_turn("hi".to_owned(), None, "e");
    match server.resume_turn(start, Err(AppServerError::Rpc("no".to_owned()))) {
        TurnStep::Failed(error) => assert_eq!(error, AppServerError::Rpc("no".to_owned())),
        other => panic!("{other:?}"),
    }
}

#[test]
fn turns_get_their_events() {
    let mut server = with_turn("t1");
    let cases = [
        (
            "{\"method\":\"item/agentMessage/delta\",\"params\":{\"threadId\":\"t1\",\"delta\":\"x\"}}",
            TurnEvent::Delta("x".to_owned()),
            false,
        ),
        (
            "{\"method\":\"error\",\"params\":{\"threadId\":\"t1\",\"error\":{\"m\":1},\"willRetry\":false}}",
            TurnEvent::Error("{\"m\":1}".to_owned()),
            true,
        ),
        (
            "{\"method\":\"error\",\"params\":{\"threadId\":\"t1\"}}",
            TurnEvent::Error("Codex turn failed".to_owned()),
            true,
        ),
        (
            "{\"method\":\"turn/completed\",\"params\":{\"threadId\":\"t1\",\"turn\":{\"status\":\"completed\",\"error\":null}}}",
            TurnEvent::Completed { status: "completed".to_owned(), error: None },
            true,
        ),
        (
            "{\"method\":\"turn/completed\",\"params\":{\"threadId\":\"t1\",\"turn\":{\"error\":\"e\"}}}",
            TurnEvent::Completed {
                status: "failed".to_owned(),
                error: Some("\"e\"".to_owned()),
            },
            true,
        ),
    ];
    for (line, expected, is_last) in cases {
        match server.receive(line) {
            Received::Deliver { thread_id, event, last } => {
                assert_eq!(thread_id, "t1");
                assert_eq!(event, expected);
                assert_eq!(last, is_last);
            }
            other => panic!("{other:?}"),
        }
    }
    assert_eq!(server.turn("t1"), Some(&"events"));
    server.end_turn("t1");
    assert_eq!(server.turn("t1"), None);
    assert!(matches!(server.receive(
        "{\"method\":\"item/agentMessage/delta\",\"params\":{\"threadId\":\"t1\",\"delta\":\"x\"}}"
    ), Received::Ignored));
}

#[test]
fn other_notifications_are_ignored() {
    let mut server = with_turn("t1");
    for line in [
        "{\"method\":\"item/agentMessage/delta\",\"params\":{\"threadId\":\"t2\",\"delta\":\"x\"}}",
        "{\"method\":\"item/agentMessage/delta\",\"params\":{\"threadId\":\"t1\",\"delta\":1}}",
        "{\"method\":\"item/agentMessage/delta\",\"params\":{\"delta\":\"x\"}}",
        "{\"method\":\"item/agentMessage/delta\"}",
        "{\"method\":\"error\",\"params\":{\"threadId\":\"t1\",\"willRetry\":true}}",
        "{\"method\":\"thread/started\",\"params\":{\"threadId\":\"t1\"}}",
        "{\"method\":7,\"params\":{\"threadId\":\"t1\"}}",
    ] {
        assert!(matches!(server.receive(line), Received::Ignored), "{line}");
    }
}

#[test]
fn server_requests_are_answered_at_once() {
    let mut server = with_turn("t1");
    let _ = server.rpc("x", Json::Null, "a");
    match server.receive_at("{\"id\":1,\"method\":\"currentTime/read\"}", 77) {
        Received::Answer(answer) => {
            assert_eq!(to_text(&answer), "{\"id\":1,\"result\":{\"currentTimeAt\":77}}");
        }
        other => panic!("{other:?}"),
    }
    assert!(matches!(server.receive("{\"id\":1}"), Received::Resolve("a", Ok(Json::Null))));
}

#[test]
fn approvals_are_denied() {
    let declined = "{\"id\":\"r\",\"result\":{\"decision\":\"decline\"}}";
    assert_eq!(
        answer("{\"id\":\"r\",\"method\":\"item/commandExecution/requestApproval\"}"),
        declined
    );
    assert_eq!(answer("{\"id\":\"r\",\"method\":\"item/fileChange/requestApproval\"}"), declined);
    let denied = "{\"id\":4,\"result\":{\"decision\":{\"denied\":{\"rejection\":\
                  \"bridge runs non-interactively\"}}}}";
    assert_eq!(answer("{\"id\":4,\"method\":\"applyPatchApproval\"}"), denied);
    assert_eq!(answer("{\"id\":4,\"method\":\"execCommandApproval\"}"), denied);
}

#[test]
fn questions_get_empty_answers() {
    assert_eq!(
        answer(
            "{\"id\":1,\"method\":\"item/tool/requestUserInput\",\"params\":{\"questions\":\
             [{\"id\":\"q2\"},{\"id\":7},{\"id\":\"q1\"},{\"id\":\"q2\"},\"q3\"]}}"
        ),
        "{\"id\":1,\"result\":{\"answers\":{\"q1\":{\"answers\":[]},\"q2\":{\"answers\":[]}}}}"
    );
    assert_eq!(
        answer("{\"id\":1,\"method\":\"item/tool/requestUserInput\"}"),
        "{\"id\":1,\"result\":{\"answers\":{}}}"
    );
}

#[test]
fn unknown_requests_are_refused() {
    assert_eq!(
        answer("{\"id\":null,\"method\":\"new/thing\"}"),
        "{\"error\":{\"code\":-32601,\"message\":\"unsupported server request: new/thing\"},\"id\":null}"
    );
    assert_eq!(
        answer("{\"id\":1,\"method\":{}}"),
        "{\"error\":{\"code\":-32601,\"message\":\"unsupported server request: \"},\"id\":1}"
    );
}

#[test]
fn the_clock_is_read_for_codex() {
    let message = json("{\"id\":1,\"method\":\"currentTime/read\"}");
    let answer = answer_server_request(Json::unsigned(1), &message);
    let seconds = answer.at("result", "currentTimeAt").and_then(Json::as_u64).unwrap();
    assert!(seconds > 1_600_000_000);
}

#[test]
fn closing_answers_everyone() {
    let mut server = with_turn("t1");
    let _ = server.rpc("x", Json::Null, "a");
    let _ = server.rpc("y", Json::Null, "b");
    let closing = server.close();
    let mut replies: Vec<&str> = closing.replies.iter().map(|reply| reply.0).collect();
    replies.sort();
    assert_eq!(replies, ["a", "b"]);
    assert!(closing
        .replies
        .iter()
        .all(|reply| matches!(reply.1, Err(AppServerError::Closed))));
    assert_eq!(
        closing.events,
        [("events", TurnEvent::Error("Codex app-server closed".to_owned()))]
    );
    assert_eq!(server.turn("t1"), None);
    let again = server.close();
    assert!(again.replies.is_empty() && again.events.is_empty());
    assert_eq!(server.rpc("z", Json::Null, "c").0, 3);
}

#[test]
fn turns_on_different_threads_do_not_mix() {
    let mut server = server();
    for (thread, events) in [("t1", "e1"), ("t2", "e2"), ("t1", "e3")] {
        let (start, _) = server.start_turn("hi".to_owned(), None, events);
        let reply = Json::object(vec![("thread", Json::object(vec![("id", Json::text(thread))]))]);
        let _ = server.resume_turn(start, Ok(reply));
    }
    assert_eq!(server.turn("t1"), Some(&"e3"));
    assert_eq!(server.turn("t2"), Some(&"e2"));
    server.end_turn("t1");
    assert_eq!(server.turn("t1"), None);
    assert_eq!(server.turn("t2"), Some(&"e2"));
}

fn chat(content: &str) -> ChatRequest {
    ChatRequest {
        model: "codex".to_owned(),
        messages: vec![ChatMessage {
            role: "user".to_owned(),
            content: Some(Json::text(content)),
            tool_calls: Vec::new(),
            tool_call_id: None,
        }],
        stream: false,
        tools: vec![json("{\"function\":{\"name\":\"f\",\"parameters\":{\"a\":1}}}")],
        tool_choice: None,
    }
}

fn responses(input: &str) -> ResponsesRequest {
    ResponsesRequest {
        model: "codex".to_owned(),
        input: Json::text(input),
        instructions: None,
        stream: false,
        text: Some(json("{\"format\":{\"schema\":{\"a\":1}}}")),
    }
}

#[test]
fn plain_chat_turns_carry_no_schema() {
    let plan = plan_chat_turn(&config(), Some(b"Bearer secret"), &chat("hi")).unwrap();
    assert_eq!(plan.prompt, "[user]\nhi");
    assert!(plan.output_schema.is_none());
    assert!(plan.forced.is_none());
}

#[test]
fn forced_chat_turns_carry_the_schema() {
    let mut request = chat("hi");
    request.tool_choice = Some(Json::text("f"));
    let plan = plan_chat_turn(&config(), Some(b"Bearer secret"), &request).unwrap();
    assert_eq!(to_text(&plan.output_schema.unwrap()), "{\"a\":1}");
    assert_eq!(plan.forced.unwrap().name, "f");
}

#[test]
fn tools_are_not_exposed() {
    let mut without = chat("hi");
    without.tools.clear();
    let a = plan_chat_turn(&config(), Some(b"Bearer secret"), &chat("hi")).unwrap();
    let b = plan_chat_turn(&config(), Some(b"Bearer secret"), &without).unwrap();
    assert_eq!(a.prompt, b.prompt);
    assert!(a.output_schema.is_none() && b.output_schema.is_none());
}

#[test]
fn requests_without_text_are_refused() {
    let mut request = chat("x");
    request.messages.clear();
    let error = plan_chat_turn(&config(), Some(b"Bearer secret"), &request).unwrap_err();
    assert_eq!((error.status, error.message.as_str()), (400, "messages did not contain text"));
    assert_eq!(error.code, "invalid_request_error");
    let blank = responses(" \n\u{3000}");
    let error = plan_responses_turn(&config(), Some(b"Bearer secret"), &blank).unwrap_err();
    assert_eq!((error.status, error.message.as_str()), (400, "input did not contain text"));
}

#[test]
fn responses_turns_carry_the_schema() {
    let plan = plan_responses_turn(&config(), Some(b"Bearer secret"), &responses("hi")).unwrap();
    assert_eq!(plan.prompt, "hi");
    assert_eq!(to_text(&plan.output_schema.unwrap()), "{\"a\":1}");
    assert!(plan.forced.is_none());
}

#[test]
fn only_authenticated_requests_get_turns() {
    let error = plan_chat_turn(&config(), None, &chat("")).unwrap_err();
    assert_eq!(error.status, 401);
    let error = plan_responses_turn(&config(), Some(b"Bearer no"), &responses("")).unwrap_err();
    assert_eq!(error.status, 401);
    assert_eq!(models(&config(), None).unwrap_err().status, 401);
}

#[test]
fn one_model_is_advertised() {
    assert_eq!(
        to_text(&models(&config(), Some(b"Bearer secret")).unwrap()),
        "{\"data\":[{\"created\":0,\"id\":\"codex\",\"object\":\"model\",\"owned_by\":\"openai\"}],\
         \"object\":\"list\"}"
    );
    assert_eq!(to_text(&health()), "{\"status\":\"ok\"}");
}
