//! The messages exchanged with the Codex app-server.
use crate::codec::{json_text, to_text};
use crate::config::{Config, Directory};
use crate::error::{AppServerError, AppServerErrorView, outcome_view};
use crate::ident::{is_clock_reading, now_seconds};
use crate::json::{
    Json, JsonView, entries_view, field, field_view, fields_view, items_view, lemma_object_field,
    lemma_object_has_no_other_field, map_of, nothing, one, owned_view, single,
};
use crate::text::same_text;
use crate::turn::{TurnEvent, TurnEventView};
use vstd::prelude::*;
use vstd::string::*;

verus! {

/// A request to the app-server.
pub open spec fn request_view(id: u64, method: Seq<char>, params: JsonView) -> JsonView {
    JsonView::object(
        seq![
            ("id"@, JsonView::integer(id as int)),
            ("method"@, JsonView::String(method)),
            ("params"@, params),
        ],
    )
}

/// A request to the app-server.
pub fn request_message(id: u64, method: &str, params: Json) -> (r: Json)
    ensures
        r@ == request_view(id, method@, params@),
{
    let fields: Vec<(&str, Json)> = vec![
        ("id", Json::unsigned(id)),
        ("method", Json::text(method)),
        ("params", params),
    ];
    assert(fields_view(fields@) =~= seq![
        ("id"@, JsonView::integer(id as int)),
        ("method"@, JsonView::String(method@)),
        ("params"@, params@),
    ]);
    Json::object(fields)
}

/// A notification to the app-server.
pub open spec fn notification_view(method: Seq<char>, params: JsonView) -> JsonView {
    JsonView::object(seq![("method"@, JsonView::String(method)), ("params"@, params)])
}

/// A notification to the app-server.
pub fn notification_message(method: &str, params: Json) -> (r: Json)
    ensures
        r@ == notification_view(method@, params@),
{
    let fields: Vec<(&str, Json)> = vec![("method", Json::text(method)), ("params", params)];
    assert(fields_view(fields@) =~= seq![
        ("method"@, JsonView::String(method@)),
        ("params"@, params@),
    ]);
    Json::object(fields)
}

/// How the gateway introduces itself.
pub open spec fn initialize_view(version: Seq<char>) -> JsonView {
    JsonView::object(
        seq![
            (
                "clientInfo"@,
                JsonView::object(
                    seq![
                        ("name"@, JsonView::String("codex-responses-bridge"@)),
                        ("version"@, JsonView::String(version)),
                    ],
                ),
            ),
            ("capabilities"@, field_view("experimentalApi"@, JsonView::Bool(false))),
        ],
    )
}

/// The parameters of `initialize`.
pub fn initialize_params(version: &str) -> (r: Json)
    ensures
        r@ == initialize_view(version@),
{
    let info: Vec<(&str, Json)> = vec![
        ("name", Json::text("codex-responses-bridge")),
        ("version", Json::text(version)),
    ];
    assert(fields_view(info@) =~= seq![
        ("name"@, JsonView::String("codex-responses-bridge"@)),
        ("version"@, JsonView::String(version@)),
    ]);
    let info = Json::object(info);
    let capabilities = field("experimentalApi", Json::Bool(false));
    let fields: Vec<(&str, Json)> = vec![("clientInfo", info), ("capabilities", capabilities)];
    assert(fields_view(fields@) =~= seq![
        ("clientInfo"@, info@),
        ("capabilities"@, capabilities@),
    ]);
    Json::object(fields)
}

/// The notification that ends the introduction.
pub fn initialized_message() -> (r: Json)
    ensures
        r@ == notification_view("initialized"@, JsonView::object(Seq::empty())),
{
    let none: Vec<(&str, Json)> = Vec::new();
    assert(fields_view(none@) =~= Seq::empty());
    notification_message("initialized", Json::object(none))
}

pub open spec fn directory_view(cwd: Option<Directory>) -> JsonView {
    match cwd {
        Some(dir) => JsonView::String(dir.path@),
        None => JsonView::Null,
    }
}

/// How a thread is set up. It goes by the configuration alone.
pub open spec fn thread_start_view(config: Config) -> JsonView {
    let params = JsonView::object(
        seq![
            ("cwd"@, directory_view(config.cwd)),
            ("ephemeral"@, JsonView::Bool(true)),
            ("approvalPolicy"@, JsonView::String("never"@)),
            ("sandbox"@, JsonView::String(config.sandbox.app_server_text())),
        ],
    );
    match config.codex_model {
        Some(model) => params.with("model"@, JsonView::String(model@)),
        None => params,
    }
}

/// The parameters of `thread/start`.
pub fn thread_start_params(config: &Config) -> (r: Json)
    ensures
        r@ == thread_start_view(*config),
{
    let cwd = match &config.cwd {
        Some(dir) => Json::text(dir.path.as_str()),
        None => Json::Null,
    };
    let fields: Vec<(&str, Json)> = vec![
        ("cwd", cwd),
        ("ephemeral", Json::Bool(true)),
        ("approvalPolicy", Json::text("never")),
        ("sandbox", Json::text(config.sandbox.as_app_server_value())),
    ];
    assert(fields_view(fields@) =~= seq![
        ("cwd"@, cwd@),
        ("ephemeral"@, JsonView::Bool(true)),
        ("approvalPolicy"@, JsonView::String("never"@)),
        ("sandbox"@, JsonView::String(config.sandbox.app_server_text())),
    ]);
    let params = Json::object(fields);
    match &config.codex_model {
        Some(model) => params.with("model", Json::text(model.as_str())),
        None => params,
    }
}

/// What a turn is about: the prompt and, where there is one, the schema of the output.
pub open spec fn turn_start_view(
    thread_id: Seq<char>,
    prompt: Seq<char>,
    output_schema: Option<JsonView>,
) -> JsonView {
    let params = JsonView::object(
        seq![
            ("threadId"@, JsonView::String(thread_id)),
            (
                "input"@,
                single(
                    JsonView::object(
                        seq![
                            ("type"@, JsonView::String("text"@)),
                            ("text"@, JsonView::String(prompt)),
                        ],
                    ),
                ),
            ),
        ],
    );
    match output_schema {
        Some(schema) => params.with("outputSchema"@, schema),
        None => params,
    }
}

/// The parameters of `turn/start`.
pub fn turn_start_params(thread_id: &str, prompt: &str, output_schema: Option<Json>) -> (r: Json)
    ensures
        r@ == turn_start_view(thread_id@, prompt@, owned_view(output_schema)),
{
    let text: Vec<(&str, Json)> = vec![("type", Json::text("text")), ("text", Json::text(prompt))];
    assert(fields_view(text@) =~= seq![
        ("type"@, JsonView::String("text"@)),
        ("text"@, JsonView::String(prompt@)),
    ]);
    let input = one(Json::object(text));
    let fields: Vec<(&str, Json)> = vec![("threadId", Json::text(thread_id)), ("input", input)];
    assert(fields_view(fields@) =~= seq![
        ("threadId"@, JsonView::String(thread_id@)),
        ("input"@, input@),
    ]);
    let params = Json::object(fields);
    match output_schema {
        Some(schema) => params.with("outputSchema", schema),
        None => params,
    }
}

/// Which turn is to be cancelled.
pub open spec fn interrupt_view(thread_id: Seq<char>, turn_id: Seq<char>) -> JsonView {
    JsonView::object(
        seq![("threadId"@, JsonView::String(thread_id)), ("turnId"@, JsonView::String(turn_id))],
    )
}

/// The parameters of `turn/interrupt`.
pub fn interrupt_params(thread_id: &str, turn_id: &str) -> (r: Json)
    ensures
        r@ == interrupt_view(thread_id@, turn_id@),
{
    let fields: Vec<(&str, Json)> = vec![
        ("threadId", Json::text(thread_id)),
        ("turnId", Json::text(turn_id)),
    ];
    assert(fields_view(fields@) =~= seq![
        ("threadId"@, JsonView::String(thread_id@)),
        ("turnId"@, JsonView::String(turn_id@)),
    ]);
    Json::object(fields)
}

/// The method of a message; empty where it names none.
pub open spec fn method_of(message: JsonView) -> Seq<char> {
    match message.text_at("method"@) {
        Some(method) => method,
        None => ""@,
    }
}

/// The method of a message; empty where it names none.
pub fn method(message: &Json) -> (r: &str)
    ensures
        r@ == method_of(message@),
{
    match message.text_at("method") {
        Some(method) => method,
        None => "",
    }
}

/// What a notification means for the turn it is about.
pub open spec fn event_of(method: Seq<char>, params: JsonView) -> Option<TurnEventView> {
    if method == "item/agentMessage/delta"@ {
        match params.text_at("delta"@) {
            Some(delta) => Some(TurnEventView::Delta(delta)),
            None => None,
        }
    } else if method == "error"@ {
        if params.get("willRetry"@) == Some(JsonView::Bool(true)) {
            None
        } else {
            Some(
                TurnEventView::Error(
                    match params.get("error"@) {
                        Some(error) => json_text(error),
                        None => "Codex turn failed"@,
                    },
                ),
            )
        }
    } else if method == "turn/completed"@ {
        Some(
            TurnEventView::Completed {
                status: match params.text_in("turn"@, "status"@) {
                    Some(status) => status,
                    None => "failed"@,
                },
                error: match params.at("turn"@, "error"@) {
                    Some(JsonView::Null) => None,
                    Some(error) => Some(json_text(error)),
                    None => None,
                },
            },
        )
    } else {
        None
    }
}

pub open spec fn event_view(event: Option<TurnEvent>) -> Option<TurnEventView> {
    match event {
        Some(event) => Some(event@),
        None => None,
    }
}

/// What a notification means for the turn it is about.
pub fn notification_event(method: &str, params: &Json) -> (r: Option<TurnEvent>)
    ensures
        event_view(r) == event_of(method@, params@),
{
    if same_text(method, "item/agentMessage/delta") {
        match params.text_at("delta") {
            Some(delta) => Some(TurnEvent::Delta(delta.to_owned())),
            None => None,
        }
    } else if same_text(method, "error") {
        let will_retry = match params.get("willRetry") {
            Some(flag) => match flag.as_bool() {
                Some(flag) => flag,
                None => false,
            },
            None => false,
        };
        if will_retry {
            None
        } else {
            match params.get("error") {
                Some(error) => Some(TurnEvent::Error(to_text(error))),
                None => Some(TurnEvent::Error("Codex turn failed".to_owned())),
            }
        }
    } else if same_text(method, "turn/completed") {
        let status = match params.text_in("turn", "status") {
            Some(status) => status.to_owned(),
            None => "failed".to_owned(),
        };
        let error = match params.at("turn", "error") {
            Some(error) => if error.is_null() {
                None
            } else {
                Some(to_text(error))
            },
            None => None,
        };
        Some(TurnEvent::Completed { status, error })
    } else {
        None
    }
}

/// Whether a request asks for leave to run a command or to change files.
pub open spec fn asks_for_item_approval(method: Seq<char>) -> bool {
    method == "item/commandExecution/requestApproval"@ || method == "item/fileChange/requestApproval"@
}

/// Whether a request asks for such leave in the older form of the protocol.
pub open spec fn asks_for_approval(method: Seq<char>) -> bool {
    method == "applyPatchApproval"@ || method == "execCommandApproval"@
}

/// An answer without content.
pub open spec fn empty_answer_view() -> JsonView {
    field_view("answers"@, JsonView::Array(Seq::empty()))
}

/// The identifier of a question.
pub open spec fn question_id(question: JsonView) -> Option<Seq<char>> {
    question.text_at("id"@)
}

/// An empty answer for each question that has an identifier.
pub open spec fn answers_view(questions: Seq<JsonView>) -> Map<Seq<char>, JsonView> {
    Map::new(
        |id: Seq<char>|
            exists|i: int| 0 <= i < questions.len() && question_id(#[trigger] questions[i]) == Some(id),
        |id: Seq<char>| empty_answer_view(),
    )
}

/// The questions that a message asks.
pub open spec fn questions_of(message: JsonView) -> Seq<JsonView> {
    match message.at("params"@, "questions"@) {
        Some(JsonView::Array(questions)) => questions,
        _ => Seq::empty(),
    }
}

/// What a request of the app-server is answered, at the time `now`; nothing where the
/// gateway does not know the method.
pub open spec fn result_of(message: JsonView, now: u64) -> Option<JsonView> {
    let method = method_of(message);
    if asks_for_item_approval(method) {
        Some(field_view("decision"@, JsonView::String("decline"@)))
    } else if method == "item/tool/requestUserInput"@ {
        Some(field_view("answers"@, JsonView::Object(answers_view(questions_of(message)))))
    } else if method == "currentTime/read"@ {
        Some(field_view("currentTimeAt"@, JsonView::integer(now as int)))
    } else if asks_for_approval(method) {
        Some(
            field_view(
                "decision"@,
                field_view(
                    "denied"@,
                    field_view("rejection"@, JsonView::String("bridge runs non-interactively"@)),
                ),
            ),
        )
    } else {
        None
    }
}

/// The answer to a request of the app-server under its identifier.
pub open spec fn answer_view(id: JsonView, message: JsonView, now: u64) -> JsonView {
    match result_of(message, now) {
        Some(result) => JsonView::object(seq![("id"@, id), ("result"@, result)]),
        None => JsonView::object(
            seq![
                ("id"@, id),
                (
                    "error"@,
                    JsonView::object(
                        seq![
                            ("code"@, JsonView::integer(-32601)),
                            (
                                "message"@,
                                JsonView::String(
                                    "unsupported server request: "@ + method_of(message),
                                ),
                            ),
                        ],
                    ),
                ),
            ],
        ),
    }
}

fn empty_answers(questions: &Vec<Json>) -> (r: Json)
    ensures
        r@ == JsonView::Object(answers_view(items_view(questions@))),
{
    let ghost all = items_view(questions@);
    let mut answers: Vec<(String, Json)> = Vec::new();
    let mut i: usize = 0;
    assert(map_of(entries_view(answers@)) =~= answers_view(all.take(0)));
    while i < questions.len()
        invariant
            i <= all.len(),
            all == items_view(questions@),
            map_of(entries_view(answers@)) == answers_view(all.take(i as int)),
        decreases all.len() - i,
    {
        let ghost before = entries_view(answers@);
        let ghost shorter = all.take(i as int);
        let ghost longer = all.take(i + 1);
        assert(longer.drop_last() =~= shorter && longer.last() == questions@[i as int]@);
        if let Some(id) = questions[i].text_at("id") {
            let answer = field("answers", nothing());
            answers.push((id.to_owned(), answer));
            proof {
                let after = entries_view(answers@);
                assert(after.drop_last() =~= before);
                lemma_answers_grow(all, i as int);
            }
        } else {
            proof {
                lemma_answers_grow(all, i as int);
            }
        }
        i = i + 1;
    }
    assert(all.take(i as int) =~= all);
    Json::Object(answers)
}

/// One question more adds its answer and changes no other.
proof fn lemma_answers_grow(questions: Seq<JsonView>, i: int)
    requires
        0 <= i < questions.len(),
    ensures
        answers_view(questions.take(i + 1)) == (match question_id(questions[i]) {
            Some(id) => answers_view(questions.take(i)).insert(id, empty_answer_view()),
            None => answers_view(questions.take(i)),
        }),
{
    let shorter = questions.take(i);
    let longer = questions.take(i + 1);
    assert(forall|j: int| 0 <= j < i ==> shorter[j] == #[trigger] longer[j]);
    assert(longer[i] == questions[i]);
    let expected = match question_id(questions[i]) {
        Some(id) => answers_view(shorter).insert(id, empty_answer_view()),
        None => answers_view(shorter),
    };
    assert forall|id: Seq<char>| answers_view(longer).contains_key(id) == expected.contains_key(id) by {
        if answers_view(shorter).contains_key(id) {
            let j = choose|j: int| 0 <= j < shorter.len() && question_id(#[trigger] shorter[j]) == Some(id);
            assert(question_id(longer[j]) == Some(id));
        }
        if answers_view(longer).contains_key(id) && !answers_view(shorter).contains_key(id) {
            let j = choose|j: int| 0 <= j < longer.len() && question_id(#[trigger] longer[j]) == Some(id);
            if j < i {
                assert(question_id(shorter[j]) == Some(id));
            }
        }
    }
    assert(answers_view(longer) =~= expected);
}

fn answer_result(message: &Json, now: u64) -> (r: Option<Json>)
    ensures
        owned_view(r) == result_of(message@, now),
{
    let method = method(message);
    if same_text(method, "item/commandExecution/requestApproval") || same_text(
        method,
        "item/fileChange/requestApproval",
    ) {
        Some(field("decision", Json::text("decline")))
    } else if same_text(method, "item/tool/requestUserInput") {
        let none: Vec<Json> = Vec::new();
        let questions: &Vec<Json> = match message.at("params", "questions") {
            Some(Json::Array(questions)) => questions,
            _ => &none,
        };
        assert(items_view(none@) =~= Seq::empty());
        Some(field("answers", empty_answers(questions)))
    } else if same_text(method, "currentTime/read") {
        Some(field("currentTimeAt", Json::unsigned(now)))
    } else if same_text(method, "applyPatchApproval") || same_text(method, "execCommandApproval") {
        let rejection = field("rejection", Json::text("bridge runs non-interactively"));
        Some(field("decision", field("denied", rejection)))
    } else {
        None
    }
}

/// The answer to a request of the app-server, at the time `now`.
pub fn answer_server_request_at(id: Json, message: &Json, now: u64) -> (r: Json)
    ensures
        r@ == answer_view(id@, message@, now),
{
    match answer_result(message, now) {
        Some(result) => {
            let fields: Vec<(&str, Json)> = vec![("id", id), ("result", result)];
            assert(fields_view(fields@) =~= seq![("id"@, id@), ("result"@, result@)]);
            Json::object(fields)
        },
        None => {
            let text = "unsupported server request: ".to_owned().concat(method(message));
            let details: Vec<(&str, Json)> = vec![
                ("code", Json::signed(-32601)),
                ("message", Json::text(text.as_str())),
            ];
            assert(fields_view(details@) =~= seq![
                ("code"@, JsonView::integer(-32601)),
                ("message"@, JsonView::String(text@)),
            ]);
            let details = Json::object(details);
            let fields: Vec<(&str, Json)> = vec![("id", id), ("error", details)];
            assert(fields_view(fields@) =~= seq![("id"@, id@), ("error"@, details@)]);
            Json::object(fields)
        },
    }
}

/// The answer to a request of the app-server.
pub fn answer_server_request(id: Json, message: &Json) -> (r: Json)
    ensures
        exists|now: u64|
            is_clock_reading(now) && r@ == #[trigger] answer_view(id@, message@, now),
{
    let now: u64 = now_seconds();
    answer_server_request_at(id, message, now)
}

/// The outcome that a reply reports: its error in JSON, or its result, which counts as null
/// where it is missing.
pub open spec fn reply_outcome(message: JsonView) -> Result<JsonView, AppServerErrorView> {
    match message.get("error"@) {
        Some(error) => Err(AppServerErrorView::Rpc(json_text(error))),
        None => Ok(
            match message.get("result"@) {
                Some(result) => result,
                None => JsonView::Null,
            },
        ),
    }
}

/// The outcome that a reply reports.
pub fn reply_result(message: &Json) -> (r: Result<Json, AppServerError>)
    ensures
        outcome_view(r) == reply_outcome(message@),
{
    match message.get("error") {
        Some(error) => Err(AppServerError::Rpc(to_text(error))),
        None => match message.get("result") {
            Some(result) => Ok(result.clone()),
            None => Ok(Json::Null),
        },
    }
}

/// A request holds its identifier, its method and its parameters.
pub proof fn law_requests_hold_their_parts(id: u64, method: Seq<char>, params: JsonView)
    ensures
        request_view(id, method, params).get("id"@) == Some(JsonView::integer(id as int)),
        request_view(id, method, params).get("method"@) == Some(JsonView::String(method)),
        request_view(id, method, params).get("params"@) == Some(params),
{
    reveal_strlit("id");
    reveal_strlit("method");
    reveal_strlit("params");
    assert("id"@.len() == 2 && "method"@.len() == 6 && "params"@.len() == 6);
    assert("method"@[0] == 'm' && "params"@[0] == 'p');
    let entries = seq![
        ("id"@, JsonView::integer(id as int)),
        ("method"@, JsonView::String(method)),
        ("params"@, params),
    ];
    lemma_object_field(entries, 0);
    lemma_object_field(entries, 1);
    lemma_object_field(entries, 2);
}

/// Codex never asks for approvals, and what it may touch is what the configuration says:
/// everything only where that was asked for.
pub proof fn law_threads_are_confined(config: Config)
    ensures
        thread_start_view(config).get("approvalPolicy"@) == Some(JsonView::String("never"@)),
        thread_start_view(config).get("cwd"@) == Some(directory_view(config.cwd)),
        thread_start_view(config).get("sandbox"@) == Some(
            JsonView::String(config.sandbox.app_server_text()),
        ),
        thread_start_view(config).text_at("sandbox"@) == Some("danger-full-access"@)
            <==> config.sandbox is DangerFullAccess,
{
    let entries = seq![
        ("cwd"@, directory_view(config.cwd)),
        ("ephemeral"@, JsonView::Bool(true)),
        ("approvalPolicy"@, JsonView::String("never"@)),
        ("sandbox"@, JsonView::String(config.sandbox.app_server_text())),
    ];
    reveal_strlit("cwd");
    reveal_strlit("ephemeral");
    reveal_strlit("approvalPolicy");
    reveal_strlit("sandbox");
    reveal_strlit("model");
    assert("cwd"@.len() == 3 && "ephemeral"@.len() == 9 && "approvalPolicy"@.len() == 14
        && "sandbox"@.len() == 7 && "model"@.len() == 5);
    reveal_strlit("read-only");
    reveal_strlit("workspace-write");
    reveal_strlit("danger-full-access");
    assert("read-only"@.len() == 9 && "workspace-write"@.len() == 15 && "danger-full-access"@.len()
        == 18);
    lemma_object_field(entries, 0);
    lemma_object_field(entries, 2);
    lemma_object_field(entries, 3);
}

/// Every request of the app-server is answered under its own identifier, with a result or
/// with an error.
pub proof fn law_answers_carry_the_identifier(id: JsonView, message: JsonView, now: u64)
    ensures
        answer_view(id, message, now).get("id"@) == Some(id),
        answer_view(id, message, now).get("result"@) == result_of(message, now),
        answer_view(id, message, now).get("error"@) is Some <==> result_of(message, now) is None,
{
    reveal_strlit("id");
    reveal_strlit("result");
    reveal_strlit("error");
    assert("id"@.len() == 2 && "result"@.len() == 6 && "error"@.len() == 5);
    match result_of(message, now) {
        Some(result) => {
            let entries = seq![("id"@, id), ("result"@, result)];
            lemma_object_field(entries, 0);
            lemma_object_field(entries, 1);
            lemma_object_has_no_other_field(entries, "error"@);
        },
        None => {
            let text = "unsupported server request: "@ + method_of(message);
            let entries = seq![
                ("id"@, id),
                (
                    "error"@,
                    JsonView::object(
                        seq![
                            ("code"@, JsonView::integer(-32601)),
                            ("message"@, JsonView::String(text)),
                        ],
                    ),
                ),
            ];
            lemma_object_field(entries, 0);
            lemma_object_field(entries, 1);
            lemma_object_has_no_other_field(entries, "result"@);
        },
    }
}

/// Whatever Codex asks leave for is denied.
pub proof fn law_approvals_are_denied(id: JsonView, message: JsonView, now: u64)
    ensures
        asks_for_item_approval(method_of(message)) ==> answer_view(id, message, now).text_in(
            "result"@,
            "decision"@,
        ) == Some("decline"@),
        asks_for_approval(method_of(message)) ==> (answer_view(id, message, now).at(
            "result"@,
            "decision"@,
        ) matches Some(decision) && decision.text_in("denied"@, "rejection"@) == Some(
            "bridge runs non-interactively"@,
        )),
{
    law_answers_carry_the_identifier(id, message, now);
    reveal_strlit("applyPatchApproval");
    reveal_strlit("execCommandApproval");
    reveal_strlit("item/commandExecution/requestApproval");
    reveal_strlit("item/fileChange/requestApproval");
    reveal_strlit("item/tool/requestUserInput");
    reveal_strlit("currentTime/read");
    let rejection = field_view("rejection"@, JsonView::String("bridge runs non-interactively"@));
    lemma_object_field(seq![("decision"@, JsonView::String("decline"@))], 0);
    lemma_object_field(seq![("rejection"@, JsonView::String("bridge runs non-interactively"@))], 0);
    lemma_object_field(seq![("denied"@, rejection)], 0);
    lemma_object_field(seq![("decision"@, field_view("denied"@, rejection))], 0);
}

/// Whatever Codex asks the user is answered with nothing: each question that has an
/// identifier with an empty answer, and no other.
pub proof fn law_questions_get_empty_answers(id: JsonView, message: JsonView, now: u64)
    requires
        method_of(message) == "item/tool/requestUserInput"@,
    ensures
        answer_view(id, message, now).at("result"@, "answers"@) matches Some(
            JsonView::Object(answers),
        ) && forall|question: Seq<char>|
            {
                &&& #[trigger] answers.contains_key(question) <==> exists|i: int|
                    0 <= i < questions_of(message).len() && question_id(
                        #[trigger] questions_of(message)[i],
                    ) == Some(question)
                &&& answers.contains_key(question) ==> answers[question].get("answers"@) == Some(
                    JsonView::Array(Seq::empty()),
                )
            },
{
    law_answers_carry_the_identifier(id, message, now);
    reveal_strlit("item/commandExecution/requestApproval");
    reveal_strlit("item/fileChange/requestApproval");
    reveal_strlit("item/tool/requestUserInput");
    let answers = JsonView::Object(answers_view(questions_of(message)));
    lemma_object_field(seq![("answers"@, answers)], 0);
    lemma_object_field(seq![("answers"@, JsonView::Array(Seq::empty()))], 0);
}

} // verus!
