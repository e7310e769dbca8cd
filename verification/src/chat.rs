//! Chat Completions: response bodies and streams.
use crate::frame::{Frame, FrameView, StreamOutput, StreamOutputView, frames_view};
use crate::ident::{fresh_id, is_clock_reading, is_fresh_id, now_seconds};
use crate::json::{Json, JsonView, fields_view, lemma_object_field, nothing, one, single};
use crate::translate::{ForcedTool, ForcedToolView};
use crate::turn::{Progress, ProgressView, TurnInput, TurnInputView};
use vstd::prelude::*;
use vstd::string::*;

verus! {

/// Token counts, which are not known here and reported as zero.
pub open spec fn empty_usage_view() -> JsonView {
    JsonView::object(
        seq![
            ("prompt_tokens"@, JsonView::integer(0)),
            ("completion_tokens"@, JsonView::integer(0)),
            ("total_tokens"@, JsonView::integer(0)),
        ],
    )
}

fn empty_usage() -> (r: Json)
    ensures
        r@ == empty_usage_view(),
{
    let fields: Vec<(&str, Json)> = vec![
        ("prompt_tokens", Json::unsigned(0)),
        ("completion_tokens", Json::unsigned(0)),
        ("total_tokens", Json::unsigned(0)),
    ];
    assert(fields_view(fields@) =~= seq![
        ("prompt_tokens"@, JsonView::integer(0)),
        ("completion_tokens"@, JsonView::integer(0)),
        ("total_tokens"@, JsonView::integer(0)),
    ]);
    Json::object(fields)
}

/// Why a completion ended: with a call of the forced tool, or with the text.
pub open spec fn finish_reason_view(forced: bool) -> JsonView {
    JsonView::String(
        if forced {
            "tool_calls"@
        } else {
            "stop"@
        },
    )
}

fn finish_reason(forced: bool) -> (r: Json)
    ensures
        r@ == finish_reason_view(forced),
{
    if forced {
        Json::text("tool_calls")
    } else {
        Json::text("stop")
    }
}

/// The name of a function and the text of its arguments.
pub open spec fn function_call_view(name: Seq<char>, arguments: Seq<char>) -> JsonView {
    JsonView::object(
        seq![("name"@, JsonView::String(name)), ("arguments"@, JsonView::String(arguments))],
    )
}

fn function_call(name: &str, arguments: &str) -> (r: Json)
    ensures
        r@ == function_call_view(name@, arguments@),
{
    let fields: Vec<(&str, Json)> = vec![
        ("name", Json::text(name)),
        ("arguments", Json::text(arguments)),
    ];
    assert(fields_view(fields@) =~= seq![
        ("name"@, JsonView::String(name@)),
        ("arguments"@, JsonView::String(arguments@)),
    ]);
    Json::object(fields)
}

/// The message of a completion: a call of the forced tool with `text` for arguments, or,
/// without one, the text.
pub open spec fn message_view(
    forced: Option<ForcedToolView>,
    call_id: Seq<char>,
    text: Seq<char>,
) -> JsonView {
    match forced {
        Some(tool) => JsonView::object(
            seq![
                ("role"@, JsonView::String("assistant"@)),
                ("content"@, JsonView::Null),
                (
                    "tool_calls"@,
                    single(
                        JsonView::object(
                            seq![
                                ("id"@, JsonView::String(call_id)),
                                ("type"@, JsonView::String("function"@)),
                                ("function"@, function_call_view(tool.name, text)),
                            ],
                        ),
                    ),
                ),
            ],
        ),
        None => JsonView::object(
            seq![
                ("role"@, JsonView::String("assistant"@)),
                ("content"@, JsonView::String(text)),
            ],
        ),
    }
}

fn completion_message(forced: Option<&ForcedTool>, call_id: &str, text: &str) -> (r: Json)
    ensures
        r@ == message_view(forced_view(forced), call_id@, text@),
{
    match forced {
        Some(tool) => {
            let function = function_call(tool.name.as_str(), text);
            let call: Vec<(&str, Json)> = vec![
                ("id", Json::text(call_id)),
                ("type", Json::text("function")),
                ("function", function),
            ];
            assert(fields_view(call@) =~= seq![
                ("id"@, JsonView::String(call_id@)),
                ("type"@, JsonView::String("function"@)),
                ("function"@, function@),
            ]);
            let calls = one(Json::object(call));
            let fields: Vec<(&str, Json)> = vec![
                ("role", Json::text("assistant")),
                ("content", Json::Null),
                ("tool_calls", calls),
            ];
            assert(fields_view(fields@) =~= seq![
                ("role"@, JsonView::String("assistant"@)),
                ("content"@, JsonView::Null),
                ("tool_calls"@, calls@),
            ]);
            Json::object(fields)
        },
        None => {
            let fields: Vec<(&str, Json)> = vec![
                ("role", Json::text("assistant")),
                ("content", Json::text(text)),
            ];
            assert(fields_view(fields@) =~= seq![
                ("role"@, JsonView::String("assistant"@)),
                ("content"@, JsonView::String(text@)),
            ]);
            Json::object(fields)
        },
    }
}

pub open spec fn forced_view(forced: Option<&ForcedTool>) -> Option<ForcedToolView> {
    match forced {
        Some(tool) => Some(tool@),
        None => None,
    }
}

/// The body of a completion.
pub open spec fn completion_view(
    id: Seq<char>,
    created: u64,
    model: Seq<char>,
    forced: Option<ForcedToolView>,
    call_id: Seq<char>,
    text: Seq<char>,
) -> JsonView {
    JsonView::object(
        seq![
            ("id"@, JsonView::String(id)),
            ("object"@, JsonView::String("chat.completion"@)),
            ("created"@, JsonView::integer(created as int)),
            ("model"@, JsonView::String(model)),
            (
                "choices"@,
                single(
                    JsonView::object(
                        seq![
                            ("index"@, JsonView::integer(0)),
                            ("message"@, message_view(forced, call_id, text)),
                            ("finish_reason"@, finish_reason_view(forced is Some)),
                        ],
                    ),
                ),
            ),
            ("usage"@, empty_usage_view()),
        ],
    )
}

/// The body of a completion that was created at `created`; `call_id` names the tool call,
/// if there is one.
pub fn completion_at(
    id: &str,
    created: u64,
    model: &str,
    forced: Option<&ForcedTool>,
    call_id: &str,
    text: &str,
) -> (r: Json)
    ensures
        r@ == completion_view(id@, created, model@, forced_view(forced), call_id@, text@),
{
    let message = completion_message(forced, call_id, text);
    let reason = finish_reason(forced.is_some());
    let choice: Vec<(&str, Json)> = vec![
        ("index", Json::unsigned(0)),
        ("message", message),
        ("finish_reason", reason),
    ];
    assert(fields_view(choice@) =~= seq![
        ("index"@, JsonView::integer(0)),
        ("message"@, message@),
        ("finish_reason"@, reason@),
    ]);
    let choices = one(Json::object(choice));
    let usage = empty_usage();
    let fields: Vec<(&str, Json)> = vec![
        ("id", Json::text(id)),
        ("object", Json::text("chat.completion")),
        ("created", Json::unsigned(created)),
        ("model", Json::text(model)),
        ("choices", choices),
        ("usage", usage),
    ];
    assert(fields_view(fields@) =~= seq![
        ("id"@, JsonView::String(id@)),
        ("object"@, JsonView::String("chat.completion"@)),
        ("created"@, JsonView::integer(created as int)),
        ("model"@, JsonView::String(model@)),
        ("choices"@, choices@),
        ("usage"@, usage@),
    ]);
    Json::object(fields)
}

/// The body of a completion that is created now, under fresh identifiers.
pub fn completion(model: &str, forced: Option<&ForcedTool>, text: &str) -> (r: Json)
    ensures
        exists|id: Seq<char>, created: u64, call_id: Seq<char>|
            is_fresh_id("chatcmpl-"@, id) && is_clock_reading(created) && is_fresh_id(
                "call_"@,
                call_id,
            ) && r@ == #[trigger] completion_view(
                id,
                created,
                model@,
                forced_view(forced),
                call_id,
                text@,
            ),
{
    let id = fresh_id("chatcmpl-");
    let created: u64 = now_seconds();
    let call_id = fresh_id("call_");
    completion_at(id.as_str(), created, model, forced, call_id.as_str(), text)
}

/// A chunk of a streamed completion.
pub open spec fn chunk_view(
    id: Seq<char>,
    created: u64,
    model: Seq<char>,
    delta: JsonView,
    finish_reason: JsonView,
) -> JsonView {
    JsonView::object(
        seq![
            ("id"@, JsonView::String(id)),
            ("object"@, JsonView::String("chat.completion.chunk"@)),
            ("created"@, JsonView::integer(created as int)),
            ("model"@, JsonView::String(model)),
            (
                "choices"@,
                single(
                    JsonView::object(
                        seq![
                            ("index"@, JsonView::integer(0)),
                            ("delta"@, delta),
                            ("finish_reason"@, finish_reason),
                        ],
                    ),
                ),
            ),
        ],
    )
}

/// A chunk of a streamed completion.
pub fn chat_chunk(id: &str, created: u64, model: &str, delta: Json, finish_reason: Json) -> (r: Json)
    ensures
        r@ == chunk_view(id@, created, model@, delta@, finish_reason@),
{
    let choice: Vec<(&str, Json)> = vec![
        ("index", Json::unsigned(0)),
        ("delta", delta),
        ("finish_reason", finish_reason),
    ];
    assert(fields_view(choice@) =~= seq![
        ("index"@, JsonView::integer(0)),
        ("delta"@, delta@),
        ("finish_reason"@, finish_reason@),
    ]);
    let choices = one(Json::object(choice));
    let fields: Vec<(&str, Json)> = vec![
        ("id", Json::text(id)),
        ("object", Json::text("chat.completion.chunk")),
        ("created", Json::unsigned(created)),
        ("model", Json::text(model)),
        ("choices", choices),
    ];
    assert(fields_view(fields@) =~= seq![
        ("id"@, JsonView::String(id@)),
        ("object"@, JsonView::String("chat.completion.chunk"@)),
        ("created"@, JsonView::integer(created as int)),
        ("model"@, JsonView::String(model@)),
        ("choices"@, choices@),
    ]);
    Json::object(fields)
}

/// The delta that opens a stream: the role and, with a forced tool, its call.
pub open spec fn initial_delta_view(forced: Option<ForcedToolView>, call_id: Seq<char>) -> JsonView {
    match forced {
        Some(tool) => JsonView::object(
            seq![
                ("role"@, JsonView::String("assistant"@)),
                (
                    "tool_calls"@,
                    single(
                        JsonView::object(
                            seq![
                                ("index"@, JsonView::integer(0)),
                                ("id"@, JsonView::String(call_id)),
                                ("type"@, JsonView::String("function"@)),
                                ("function"@, function_call_view(tool.name, ""@)),
                            ],
                        ),
                    ),
                ),
            ],
        ),
        None => JsonView::object(
            seq![
                ("role"@, JsonView::String("assistant"@)),
                ("content"@, JsonView::String(""@)),
            ],
        ),
    }
}

/// The delta that opens a stream; `call_id` names the tool call, if there is one.
pub fn initial_chat_delta(forced: Option<&ForcedTool>, call_id: &str) -> (r: Json)
    ensures
        r@ == initial_delta_view(forced_view(forced), call_id@),
{
    match forced {
        Some(tool) => {
            let function = function_call(tool.name.as_str(), "");
            let call: Vec<(&str, Json)> = vec![
                ("index", Json::unsigned(0)),
                ("id", Json::text(call_id)),
                ("type", Json::text("function")),
                ("function", function),
            ];
            assert(fields_view(call@) =~= seq![
                ("index"@, JsonView::integer(0)),
                ("id"@, JsonView::String(call_id@)),
                ("type"@, JsonView::String("function"@)),
                ("function"@, function@),
            ]);
            let calls = one(Json::object(call));
            let fields: Vec<(&str, Json)> = vec![
                ("role", Json::text("assistant")),
                ("tool_calls", calls),
            ];
            assert(fields_view(fields@) =~= seq![
                ("role"@, JsonView::String("assistant"@)),
                ("tool_calls"@, calls@),
            ]);
            Json::object(fields)
        },
        None => {
            let fields: Vec<(&str, Json)> = vec![
                ("role", Json::text("assistant")),
                ("content", Json::text("")),
            ];
            assert(fields_view(fields@) =~= seq![
                ("role"@, JsonView::String("assistant"@)),
                ("content"@, JsonView::String(""@)),
            ]);
            Json::object(fields)
        },
    }
}

/// The delta that carries more text: more arguments of the forced tool, or more content.
pub open spec fn text_delta_view(forced: bool, text: Seq<char>) -> JsonView {
    if forced {
        JsonView::object(
            seq![
                (
                    "tool_calls"@,
                    single(
                        JsonView::object(
                            seq![
                                ("index"@, JsonView::integer(0)),
                                (
                                    "function"@,
                                    JsonView::object(seq![("arguments"@, JsonView::String(text))]),
                                ),
                            ],
                        ),
                    ),
                ),
            ],
        )
    } else {
        JsonView::object(seq![("content"@, JsonView::String(text))])
    }
}

fn text_delta(forced: bool, text: &str) -> (r: Json)
    ensures
        r@ == text_delta_view(forced, text@),
{
    if forced {
        let arguments: Vec<(&str, Json)> = vec![("arguments", Json::text(text))];
        assert(fields_view(arguments@) =~= seq![("arguments"@, JsonView::String(text@))]);
        let function = Json::object(arguments);
        let call: Vec<(&str, Json)> = vec![
            ("index", Json::unsigned(0)),
            ("function", function),
        ];
        assert(fields_view(call@) =~= seq![
            ("index"@, JsonView::integer(0)),
            ("function"@, function@),
        ]);
        let calls = one(Json::object(call));
        let fields: Vec<(&str, Json)> = vec![("tool_calls", calls)];
        assert(fields_view(fields@) =~= seq![("tool_calls"@, calls@)]);
        Json::object(fields)
    } else {
        let fields: Vec<(&str, Json)> = vec![("content", Json::text(text))];
        assert(fields_view(fields@) =~= seq![("content"@, JsonView::String(text@))]);
        Json::object(fields)
    }
}

/// What the client is told of a failed turn.
pub open spec fn stream_error_view(message: Seq<char>) -> JsonView {
    JsonView::object(
        seq![
            (
                "error"@,
                JsonView::object(
                    seq![
                        ("message"@, JsonView::String(message)),
                        ("type"@, JsonView::String("server_error"@)),
                        ("code"@, JsonView::String("codex_turn_failed"@)),
                    ],
                ),
            ),
        ],
    )
}

fn stream_error(message: &str) -> (r: Json)
    ensures
        r@ == stream_error_view(message@),
{
    let details: Vec<(&str, Json)> = vec![
        ("message", Json::text(message)),
        ("type", Json::text("server_error")),
        ("code", Json::text("codex_turn_failed")),
    ];
    assert(fields_view(details@) =~= seq![
        ("message"@, JsonView::String(message@)),
        ("type"@, JsonView::String("server_error"@)),
        ("code"@, JsonView::String("codex_turn_failed"@)),
    ]);
    let details = Json::object(details);
    let fields: Vec<(&str, Json)> = vec![("error", details)];
    assert(fields_view(fields@) =~= seq![("error"@, details@)]);
    Json::object(fields)
}

/// A streamed completion.
#[derive(Debug)]
pub struct ChatStream {
    id: String,
    created: u64,
    model: String,
    forced: bool,
    finished: bool,
}

/// The content of a [`ChatStream`].
pub struct ChatStreamView {
    pub id: Seq<char>,
    pub created: u64,
    pub model: Seq<char>,
    /// Whether the text is the arguments of a forced tool.
    pub forced: bool,
    pub finished: bool,
}

impl View for ChatStream {
    type V = ChatStreamView;

    closed spec fn view(&self) -> ChatStreamView {
        ChatStreamView {
            id: self.id@,
            created: self.created,
            model: self.model@,
            forced: self.forced,
            finished: self.finished,
        }
    }
}

impl ChatStreamView {
    pub open spec fn chunk(self, delta: JsonView, finish_reason: JsonView) -> FrameView {
        FrameView::Data(chunk_view(self.id, self.created, self.model, delta, finish_reason))
    }

    /// The chunk that opens the stream.
    pub open spec fn opening(self, forced: Option<ForcedToolView>, call_id: Seq<char>) -> FrameView {
        self.chunk(initial_delta_view(forced, call_id), JsonView::Null)
    }

    /// The chunk that carries more text.
    pub open spec fn text(self, text: Seq<char>) -> FrameView {
        self.chunk(text_delta_view(self.forced, text), JsonView::Null)
    }

    /// The chunk that carries the token counts.
    pub open spec fn usage(self) -> FrameView {
        FrameView::Data(
            JsonView::object(
                seq![
                    ("id"@, JsonView::String(self.id)),
                    ("object"@, JsonView::String("chat.completion.chunk"@)),
                    ("created"@, JsonView::integer(self.created as int)),
                    ("model"@, JsonView::String(self.model)),
                    ("choices"@, JsonView::Array(Seq::empty())),
                    ("usage"@, empty_usage_view()),
                ],
            ),
        )
    }

    /// What ends the stream: the reason of the failure, or the finish reason and the usage;
    /// then the mark that nothing follows.
    pub open spec fn closing(self, failure: Option<Seq<char>>) -> Seq<FrameView> {
        match failure {
            Some(message) => seq![FrameView::Data(stream_error_view(message)), FrameView::Done],
            None => seq![
                self.chunk(JsonView::object(Seq::empty()), finish_reason_view(self.forced)),
                self.usage(),
                FrameView::Done,
            ],
        }
    }

    /// What the stream does after an input.
    pub open spec fn output(self, input: TurnInputView) -> StreamOutputView {
        if self.finished {
            StreamOutputView { interrupt: false, frames: Seq::empty(), finished: true }
        } else {
            match input.progress() {
                ProgressView::Text(text) => StreamOutputView {
                    interrupt: false,
                    frames: seq![self.text(text)],
                    finished: false,
                },
                ProgressView::Ended(failure) => StreamOutputView {
                    interrupt: input.cancels(),
                    frames: self.closing(failure),
                    finished: true,
                },
                ProgressView::Abandoned => StreamOutputView {
                    interrupt: input.cancels(),
                    frames: Seq::empty(),
                    finished: true,
                },
            }
        }
    }

    /// The stream after an input.
    pub open spec fn next(self, input: TurnInputView) -> ChatStreamView {
        ChatStreamView { finished: self.output(input).finished, ..self }
    }
}

impl ChatStream {
    /// A stream that opened at `created`, with its first frame; `call_id` names the tool
    /// call, if there is one.
    pub fn open_at(
        id: String,
        created: u64,
        model: String,
        forced: Option<&ForcedTool>,
        call_id: &str,
    ) -> (r: (ChatStream, Frame))
        ensures
            r.0@ == (ChatStreamView {
                id: id@,
                created,
                model: model@,
                forced: forced is Some,
                finished: false,
            }),
            r.1@ == r.0@.opening(forced_view(forced), call_id@),
    {
        let delta = initial_chat_delta(forced, call_id);
        let first = Frame::Data(
            chat_chunk(id.as_str(), created, model.as_str(), delta, Json::Null),
        );
        let stream = ChatStream { id, created, model, forced: forced.is_some(), finished: false };
        (stream, first)
    }

    /// A stream that opens now, under fresh identifiers, with its first frame.
    pub fn open(model: String, forced: Option<&ForcedTool>) -> (r: (ChatStream, Frame))
        ensures
            is_fresh_id("chatcmpl-"@, r.0@.id),
            is_clock_reading(r.0@.created),
            r.0@.model == model@,
            r.0@.forced == (forced is Some),
            !r.0@.finished,
            exists|call_id: Seq<char>|
                is_fresh_id("call_"@, call_id) && r.1@ == #[trigger] r.0@.opening(
                    forced_view(forced),
                    call_id,
                ),
    {
        let id = fresh_id("chatcmpl-");
        let created: u64 = now_seconds();
        let call_id = fresh_id("call_");
        ChatStream::open_at(id, created, model, forced, call_id.as_str())
    }

    /// Takes the next input.
    pub fn step(&mut self, input: TurnInput) -> (r: StreamOutput)
        ensures
            final(self)@ == old(self)@.next(input@),
            r@ == old(self)@.output(input@),
    {
        let mut frames: Vec<Frame> = Vec::new();
        if self.finished {
            assert(frames_view(frames@) =~= Seq::empty());
            return StreamOutput { interrupt: false, frames, finished: true };
        }
        let interrupt = input.cancels();
        match input.progress() {
            Progress::Text(text) => {
                let delta = text_delta(self.forced, text.as_str());
                frames.push(Frame::Data(self.chunk(delta, Json::Null)));
                assert(frames_view(frames@) =~= seq![self@.text(text@)]);
                return StreamOutput { interrupt: false, frames, finished: false };
            },
            Progress::Ended(Some(failure)) => {
                frames.push(Frame::Data(stream_error(failure.as_str())));
                frames.push(Frame::Done);
                assert(frames_view(frames@) =~= self@.closing(Some(failure@)));
            },
            Progress::Ended(None) => {
                let none: Vec<(&str, Json)> = Vec::new();
                assert(fields_view(none@) =~= Seq::empty());
                let delta = Json::object(none);
                frames.push(Frame::Data(self.chunk(delta, finish_reason(self.forced))));
                frames.push(Frame::Data(self.usage()));
                frames.push(Frame::Done);
                assert(frames_view(frames@) =~= self@.closing(None));
            },
            Progress::Abandoned => {
                assert(frames_view(frames@) =~= Seq::empty());
            },
        }
        self.finished = true;
        StreamOutput { interrupt, frames, finished: true }
    }

    fn chunk(&self, delta: Json, finish_reason: Json) -> (r: Json)
        ensures
            FrameView::Data(r@) == self@.chunk(delta@, finish_reason@),
    {
        chat_chunk(self.id.as_str(), self.created, self.model.as_str(), delta, finish_reason)
    }

    fn usage(&self) -> (r: Json)
        ensures
            FrameView::Data(r@) == self@.usage(),
    {
        let usage = empty_usage();
        let choices = nothing();
        let fields: Vec<(&str, Json)> = vec![
            ("id", Json::text(self.id.as_str())),
            ("object", Json::text("chat.completion.chunk")),
            ("created", Json::unsigned(self.created)),
            ("model", Json::text(self.model.as_str())),
            ("choices", choices),
            ("usage", usage),
        ];
        assert(fields_view(fields@) =~= seq![
            ("id"@, JsonView::String(self.id@)),
            ("object"@, JsonView::String("chat.completion.chunk"@)),
            ("created"@, JsonView::integer(self.created as int)),
            ("model"@, JsonView::String(self.model@)),
            ("choices"@, choices@),
            ("usage"@, usage@),
        ]);
        Json::object(fields)
    }
}

/// What holds of every completion: its one choice holds the message and says whether it is a
/// call of the forced function, and all token counts are zero.
pub proof fn law_completions_hold_their_message(
    id: Seq<char>,
    created: u64,
    model: Seq<char>,
    forced: Option<ForcedToolView>,
    call_id: Seq<char>,
    text: Seq<char>,
)
    ensures
        ({
            let completion = completion_view(id, created, model, forced, call_id, text);
            &&& completion.get("choices"@) matches Some(JsonView::Array(choices)) && choices.len() == 1
                && choices[0].get("message"@) == Some(message_view(forced, call_id, text))
                && choices[0].get("finish_reason"@) == Some(finish_reason_view(forced is Some))
            &&& completion.get("usage"@) == Some(empty_usage_view())
        }),
{
    reveal_strlit("message");
    reveal_strlit("finish_reason");
    reveal_strlit("choices");
    reveal_strlit("usage");
    assert("message"@.len() == 7 && "finish_reason"@.len() == 13 && "choices"@.len() == 7
        && "usage"@.len() == 5);
    let choice = seq![
        ("index"@, JsonView::integer(0)),
        ("message"@, message_view(forced, call_id, text)),
        ("finish_reason"@, finish_reason_view(forced is Some)),
    ];
    let completion = seq![
        ("id"@, JsonView::String(id)),
        ("object"@, JsonView::String("chat.completion"@)),
        ("created"@, JsonView::integer(created as int)),
        ("model"@, JsonView::String(model)),
        ("choices"@, single(JsonView::object(choice))),
        ("usage"@, empty_usage_view()),
    ];
    lemma_object_field(choice, 1);
    lemma_object_field(choice, 2);
    lemma_object_field(completion, 4);
    lemma_object_field(completion, 5);
}

} // verus!
