//! Responses: response bodies and streams.
use crate::frame::{Frame, FrameView, StreamOutput, StreamOutputView, frames_view};
use crate::ident::{fresh_id, is_clock_reading, is_fresh_id, now_seconds};
use crate::json::{
    Json, JsonView, field, field_view, fields_view, lemma_object_field, nothing, one, single,
    text_view,
};
use crate::text::same_text;
use crate::turn::{
    Progress, ProgressView, TurnEvent, TurnInput, TurnInputView, collected_text,
};
use vstd::prelude::*;
use vstd::string::*;

verus! {

/// A text under the type `output_text`.
pub open spec fn output_text_view(text: Seq<char>) -> JsonView {
    JsonView::object(
        seq![
            ("type"@, JsonView::String("output_text"@)),
            ("text"@, JsonView::String(text)),
            ("annotations"@, JsonView::Array(Seq::empty())),
        ],
    )
}

fn output_text(text: &str) -> (r: Json)
    ensures
        r@ == output_text_view(text@),
{
    let annotations = nothing();
    let fields: Vec<(&str, Json)> = vec![
        ("type", Json::text("output_text")),
        ("text", Json::text(text)),
        ("annotations", annotations),
    ];
    assert(fields_view(fields@) =~= seq![
        ("type"@, JsonView::String("output_text"@)),
        ("text"@, JsonView::String(text@)),
        ("annotations"@, annotations@),
    ]);
    Json::object(fields)
}

/// The message that holds the text of a response.
pub open spec fn item_view(id: Seq<char>, text: Seq<char>, status: Seq<char>) -> JsonView {
    JsonView::object(
        seq![
            ("id"@, JsonView::String(id)),
            ("type"@, JsonView::String("message"@)),
            ("status"@, JsonView::String(status)),
            ("role"@, JsonView::String("assistant"@)),
            ("content"@, single(output_text_view(text))),
        ],
    )
}

/// The message that holds the text of a response.
pub fn message_item(id: &str, text: &str, status: &str) -> (r: Json)
    ensures
        r@ == item_view(id@, text@, status@),
{
    let content = one(output_text(text));
    let fields: Vec<(&str, Json)> = vec![
        ("id", Json::text(id)),
        ("type", Json::text("message")),
        ("status", Json::text(status)),
        ("role", Json::text("assistant")),
        ("content", content),
    ];
    assert(fields_view(fields@) =~= seq![
        ("id"@, JsonView::String(id@)),
        ("type"@, JsonView::String("message"@)),
        ("status"@, JsonView::String(status@)),
        ("role"@, JsonView::String("assistant"@)),
        ("content"@, content@),
    ]);
    Json::object(fields)
}

/// The error of a failed response; null without one.
pub open spec fn error_view(error: Option<Seq<char>>) -> JsonView {
    match error {
        Some(message) => JsonView::object(
            seq![
                ("code"@, JsonView::String("codex_turn_failed"@)),
                ("message"@, JsonView::String(message)),
            ],
        ),
        None => JsonView::Null,
    }
}

fn error_object(error: Option<&str>) -> (r: Json)
    ensures
        r@ == error_view(text_view(error)),
{
    match error {
        Some(message) => {
            let fields: Vec<(&str, Json)> = vec![
                ("code", Json::text("codex_turn_failed")),
                ("message", Json::text(message)),
            ];
            assert(fields_view(fields@) =~= seq![
                ("code"@, JsonView::String("codex_turn_failed"@)),
                ("message"@, JsonView::String(message@)),
            ]);
            Json::object(fields)
        },
        None => Json::Null,
    }
}

/// Token counts, which are not known here and reported as zero.
pub open spec fn response_usage_view() -> JsonView {
    JsonView::object(
        seq![
            ("input_tokens"@, JsonView::integer(0)),
            ("input_tokens_details"@, field_view("cached_tokens"@, JsonView::integer(0))),
            ("output_tokens"@, JsonView::integer(0)),
            ("output_tokens_details"@, field_view("reasoning_tokens"@, JsonView::integer(0))),
            ("total_tokens"@, JsonView::integer(0)),
        ],
    )
}

fn response_usage() -> (r: Json)
    ensures
        r@ == response_usage_view(),
{
    let cached = field("cached_tokens", Json::unsigned(0));
    let reasoning = field("reasoning_tokens", Json::unsigned(0));
    let fields: Vec<(&str, Json)> = vec![
        ("input_tokens", Json::unsigned(0)),
        ("input_tokens_details", cached),
        ("output_tokens", Json::unsigned(0)),
        ("output_tokens_details", reasoning),
        ("total_tokens", Json::unsigned(0)),
    ];
    assert(fields_view(fields@) =~= seq![
        ("input_tokens"@, JsonView::integer(0)),
        ("input_tokens_details"@, cached@),
        ("output_tokens"@, JsonView::integer(0)),
        ("output_tokens_details"@, reasoning@),
        ("total_tokens"@, JsonView::integer(0)),
    ]);
    Json::object(fields)
}

/// The output of a response: its message once it is completed, and nothing before.
pub open spec fn output_view(message_id: Seq<char>, text: Seq<char>, status: Seq<char>) -> JsonView {
    JsonView::Array(
        if status == "completed"@ {
            seq![item_view(message_id, text, "completed"@)]
        } else {
            Seq::empty()
        },
    )
}

/// A response.
pub open spec fn response_view(
    id: Seq<char>,
    created_at: u64,
    model: Seq<char>,
    text: Seq<char>,
    status: Seq<char>,
    error: Option<Seq<char>>,
    message_id: Seq<char>,
) -> JsonView {
    JsonView::object(
        seq![
            ("id"@, JsonView::String(id)),
            ("object"@, JsonView::String("response"@)),
            ("created_at"@, JsonView::integer(created_at as int)),
            ("status"@, JsonView::String(status)),
            ("error"@, error_view(error)),
            ("incomplete_details"@, JsonView::Null),
            ("instructions"@, JsonView::Null),
            ("model"@, JsonView::String(model)),
            ("output"@, output_view(message_id, text, status)),
            ("parallel_tool_calls"@, JsonView::Bool(true)),
            ("previous_response_id"@, JsonView::Null),
            ("store"@, JsonView::Bool(false)),
            ("temperature"@, JsonView::Null),
            ("text"@, field_view("format"@, field_view("type"@, JsonView::String("text"@)))),
            ("tool_choice"@, JsonView::String("auto"@)),
            ("tools"@, JsonView::Array(Seq::empty())),
            ("top_p"@, JsonView::Null),
            ("truncation"@, JsonView::String("disabled"@)),
            ("usage"@, response_usage_view()),
            ("metadata"@, JsonView::object(Seq::empty())),
        ],
    )
}

/// A response that was created at `created_at`; its message has the identifier `message_id`.
pub fn response_object_at(
    id: &str,
    created_at: u64,
    model: &str,
    text: &str,
    status: &str,
    error: Option<&str>,
    message_id: &str,
) -> (r: Json)
    ensures
        r@ == response_view(
            id@,
            created_at,
            model@,
            text@,
            status@,
            text_view(error),
            message_id@,
        ),
{
    let output = if same_text(status, "completed") {
        one(message_item(message_id, text, "completed"))
    } else {
        nothing()
    };
    let error = error_object(error);
    let tools = nothing();
    let format = field("format", field("type", Json::text("text")));
    let usage = response_usage();
    let none: Vec<(&str, Json)> = Vec::new();
    assert(fields_view(none@) =~= Seq::empty());
    let metadata = Json::object(none);
    let fields: Vec<(&str, Json)> = vec![
        ("id", Json::text(id)),
        ("object", Json::text("response")),
        ("created_at", Json::unsigned(created_at)),
        ("status", Json::text(status)),
        ("error", error),
        ("incomplete_details", Json::Null),
        ("instructions", Json::Null),
        ("model", Json::text(model)),
        ("output", output),
        ("parallel_tool_calls", Json::Bool(true)),
        ("previous_response_id", Json::Null),
        ("store", Json::Bool(false)),
        ("temperature", Json::Null),
        ("text", format),
        ("tool_choice", Json::text("auto")),
        ("tools", tools),
        ("top_p", Json::Null),
        ("truncation", Json::text("disabled")),
        ("usage", usage),
        ("metadata", metadata),
    ];
    assert(fields_view(fields@) =~= seq![
        ("id"@, JsonView::String(id@)),
        ("object"@, JsonView::String("response"@)),
        ("created_at"@, JsonView::integer(created_at as int)),
        ("status"@, JsonView::String(status@)),
        ("error"@, error@),
        ("incomplete_details"@, JsonView::Null),
        ("instructions"@, JsonView::Null),
        ("model"@, JsonView::String(model@)),
        ("output"@, output@),
        ("parallel_tool_calls"@, JsonView::Bool(true)),
        ("previous_response_id"@, JsonView::Null),
        ("store"@, JsonView::Bool(false)),
        ("temperature"@, JsonView::Null),
        ("text"@, format@),
        ("tool_choice"@, JsonView::String("auto"@)),
        ("tools"@, tools@),
        ("top_p"@, JsonView::Null),
        ("truncation"@, JsonView::String("disabled"@)),
        ("usage"@, usage@),
        ("metadata"@, metadata@),
    ]);
    Json::object(fields)
}

/// A response that is created now; its message gets a fresh identifier where none is given.
pub fn response_object(
    id: &str,
    model: &str,
    text: &str,
    status: &str,
    error: Option<&str>,
    message_id: Option<&str>,
) -> (r: Json)
    ensures
        exists|created_at: u64, item_id: Seq<char>|
            is_clock_reading(created_at) && (match message_id {
                Some(given) => item_id == given@,
                None => is_fresh_id("msg_"@, item_id),
            }) && r@ == #[trigger] response_view(
                id@,
                created_at,
                model@,
                text@,
                status@,
                text_view(error),
                item_id,
            ),
{
    let created_at: u64 = now_seconds();
    match message_id {
        Some(given) => response_object_at(id, created_at, model, text, status, error, given),
        None => {
            let fresh = fresh_id("msg_");
            response_object_at(id, created_at, model, text, status, error, fresh.as_str())
        },
    }
}

/// The body of a completed response with this text, created now under fresh identifiers.
pub fn completed_response(model: &str, text: &str) -> (r: Json)
    ensures
        exists|id: Seq<char>, created_at: u64, item_id: Seq<char>|
            is_fresh_id("resp_"@, id) && is_clock_reading(created_at) && is_fresh_id(
                "msg_"@,
                item_id,
            ) && r@ == #[trigger] response_view(
                id,
                created_at,
                model@,
                text@,
                "completed"@,
                None,
                item_id,
            ),
{
    let id = fresh_id("resp_");
    response_object(id.as_str(), model, text, "completed", None, None)
}

/// The place of the text in a response.
pub open spec fn place_view(item_id: Seq<char>, name: Seq<char>, value: JsonView) -> JsonView {
    JsonView::object(
        seq![
            ("item_id"@, JsonView::String(item_id)),
            ("output_index"@, JsonView::integer(0)),
            ("content_index"@, JsonView::integer(0)),
            (name, value),
        ],
    )
}

fn place(item_id: &str, name: &str, value: Json) -> (r: Json)
    ensures
        r@ == place_view(item_id@, name@, value@),
{
    let fields: Vec<(&str, Json)> = vec![
        ("item_id", Json::text(item_id)),
        ("output_index", Json::unsigned(0)),
        ("content_index", Json::unsigned(0)),
        (name, value),
    ];
    assert(fields_view(fields@) =~= seq![
        ("item_id"@, JsonView::String(item_id@)),
        ("output_index"@, JsonView::integer(0)),
        ("content_index"@, JsonView::integer(0)),
        (name@, value@),
    ]);
    Json::object(fields)
}

/// The place of the message in a response.
pub open spec fn item_place_view(item: JsonView) -> JsonView {
    JsonView::object(seq![("output_index"@, JsonView::integer(0)), ("item"@, item)])
}

fn item_place(item: Json) -> (r: Json)
    ensures
        r@ == item_place_view(item@),
{
    let fields: Vec<(&str, Json)> = vec![("output_index", Json::unsigned(0)), ("item", item)];
    assert(fields_view(fields@) =~= seq![
        ("output_index"@, JsonView::integer(0)),
        ("item"@, item@),
    ]);
    Json::object(fields)
}

/// An event of a stream: its body, with its name and its number in the stream.
pub open spec fn event_view(name: Seq<char>, sequence_number: int, body: JsonView) -> FrameView {
    FrameView::Event {
        name,
        data: body.with("type"@, JsonView::String(name)).with(
            "sequence_number"@,
            JsonView::integer(sequence_number),
        ),
    }
}

/// An event of a stream.
pub fn response_event(name: &'static str, sequence_number: u64, body: Json) -> (r: Frame)
    requires
        body@ is Object || body@ is Null,
    ensures
        r@ == event_view(name@, sequence_number as int, body@),
{
    let data = body.with("type", Json::text(name)).with(
        "sequence_number",
        Json::unsigned(sequence_number),
    );
    Frame::Event { name, data }
}

/// A streamed response.
#[derive(Debug)]
pub struct ResponsesStream {
    id: String,
    model: String,
    message_id: String,
    text: String,
    sequence: u64,
    finished: bool,
}

/// The content of a [`ResponsesStream`].
pub struct ResponsesStreamView {
    pub id: Seq<char>,
    pub model: Seq<char>,
    pub message_id: Seq<char>,
    /// The text so far.
    pub text: Seq<char>,
    /// The number of the last event.
    pub sequence: int,
    pub finished: bool,
}

impl View for ResponsesStream {
    type V = ResponsesStreamView;

    closed spec fn view(&self) -> ResponsesStreamView {
        ResponsesStreamView {
            id: self.id@,
            model: self.model@,
            message_id: self.message_id@,
            text: self.text@,
            sequence: self.sequence as int,
            finished: self.finished,
        }
    }
}

impl ResponsesStreamView {
    /// The response as it stands, as the only field of an event body.
    pub open spec fn response(
        self,
        created_at: u64,
        status: Seq<char>,
        error: Option<Seq<char>>,
    ) -> JsonView {
        field_view(
            "response"@,
            response_view(
                self.id,
                created_at,
                self.model,
                self.text,
                status,
                error,
                self.message_id,
            ),
        )
    }

    /// The events that open the stream. The two that hold the response do so as of
    /// `created_at` and `in_progress_at`.
    pub open spec fn opening(self, created_at: u64, in_progress_at: u64) -> Seq<FrameView> {
        seq![
            event_view("response.created"@, 1, self.response(created_at, "in_progress"@, None)),
            event_view(
                "response.in_progress"@,
                2,
                self.response(in_progress_at, "in_progress"@, None),
            ),
            event_view(
                "response.output_item.added"@,
                3,
                item_place_view(item_view(self.message_id, ""@, "in_progress"@)),
            ),
            event_view(
                "response.content_part.added"@,
                4,
                place_view(self.message_id, "part"@, output_text_view(""@)),
            ),
        ]
    }

    /// The event that carries more text.
    pub open spec fn delta(self, text: Seq<char>) -> FrameView {
        event_view(
            "response.output_text.delta"@,
            self.sequence + 1,
            place_view(self.message_id, "delta"@, JsonView::String(text)),
        )
    }

    /// The event that reports the failure of the turn.
    pub open spec fn failed(self, failure: Seq<char>, now: u64) -> FrameView {
        event_view(
            "response.failed"@,
            self.sequence + 1,
            self.response(now, "failed"@, Some(failure)),
        )
    }

    /// The events that end a successful stream.
    pub open spec fn completed(self, now: u64) -> Seq<FrameView> {
        seq![
            event_view(
                "response.output_text.done"@,
                self.sequence + 1,
                place_view(self.message_id, "text"@, JsonView::String(self.text)),
            ),
            event_view(
                "response.content_part.done"@,
                self.sequence + 2,
                place_view(self.message_id, "part"@, output_text_view(self.text)),
            ),
            event_view(
                "response.output_item.done"@,
                self.sequence + 3,
                item_place_view(item_view(self.message_id, self.text, "completed"@)),
            ),
            event_view(
                "response.completed"@,
                self.sequence + 4,
                self.response(now, "completed"@, None),
            ),
        ]
    }

    /// What the stream does after an input, at the time `now`.
    pub open spec fn output(self, input: TurnInputView, now: u64) -> StreamOutputView {
        if self.finished {
            StreamOutputView { interrupt: false, frames: Seq::empty(), finished: true }
        } else {
            match input.progress() {
                ProgressView::Text(text) => StreamOutputView {
                    interrupt: false,
                    frames: seq![self.delta(text)],
                    finished: false,
                },
                ProgressView::Ended(Some(failure)) => StreamOutputView {
                    interrupt: input.cancels(),
                    frames: seq![self.failed(failure, now)],
                    finished: true,
                },
                ProgressView::Ended(None) => StreamOutputView {
                    interrupt: input.cancels(),
                    frames: self.completed(now),
                    finished: true,
                },
                ProgressView::Abandoned => StreamOutputView {
                    interrupt: input.cancels(),
                    frames: Seq::empty(),
                    finished: true,
                },
            }
        }
    }

    /// The stream after an input.
    pub open spec fn next(self, input: TurnInputView, now: u64) -> ResponsesStreamView {
        let output = self.output(input, now);
        ResponsesStreamView {
            text: if self.finished {
                self.text
            } else {
                collected_text(self.text, input)
            },
            sequence: self.sequence + output.frames.len(),
            finished: output.finished,
            ..self
        }
    }

    /// Whether the numbers of the events after an input fit into 64 bits.
    pub open spec fn has_room(self, input: TurnInputView) -> bool {
        self.finished || self.sequence + events_after(input) <= u64::MAX
    }
}

/// How many events an input brings to a running stream.
pub open spec fn events_after(input: TurnInputView) -> int {
    match input.progress() {
        ProgressView::Text(_) => 1,
        ProgressView::Ended(Some(_)) => 1,
        ProgressView::Ended(None) => 4,
        ProgressView::Abandoned => 0,
    }
}

impl ResponsesStream {
    /// A stream of the response `id`, with its first frames. The two that hold the response
    /// do so as of `created_at` and `in_progress_at`.
    pub fn open_at(
        id: String,
        model: String,
        message_id: String,
        created_at: u64,
        in_progress_at: u64,
    ) -> (r: (ResponsesStream, Vec<Frame>))
        ensures
            r.0@ == (ResponsesStreamView {
                id: id@,
                model: model@,
                message_id: message_id@,
                text: Seq::empty(),
                sequence: 4,
                finished: false,
            }),
            frames_view(r.1@) == r.0@.opening(created_at, in_progress_at),
    {
        let stream = ResponsesStream {
            id,
            model,
            message_id,
            text: String::new(),
            sequence: 4,
            finished: false,
        };
        let item_id = stream.message_id.as_str();
        let mut frames: Vec<Frame> = Vec::new();
        frames.push(
            response_event("response.created", 1, stream.response(created_at, "in_progress", None)),
        );
        frames.push(
            response_event(
                "response.in_progress",
                2,
                stream.response(in_progress_at, "in_progress", None),
            ),
        );
        frames.push(
            response_event(
                "response.output_item.added",
                3,
                item_place(message_item(item_id, "", "in_progress")),
            ),
        );
        frames.push(
            response_event("response.content_part.added", 4, place(item_id, "part", output_text(""))),
        );
        assert(frames_view(frames@) =~= stream@.opening(created_at, in_progress_at));
        (stream, frames)
    }

    /// A stream that opens now, under fresh identifiers, with its first frames.
    pub fn open(model: String) -> (r: (ResponsesStream, Vec<Frame>))
        ensures
            is_fresh_id("resp_"@, r.0@.id),
            is_fresh_id("msg_"@, r.0@.message_id),
            r.0@.model == model@,
            r.0@.text == Seq::<char>::empty(),
            r.0@.sequence == 4,
            !r.0@.finished,
            exists|created_at: u64, in_progress_at: u64|
                is_clock_reading(created_at) && is_clock_reading(in_progress_at) && frames_view(r.1@)
                    == #[trigger] r.0@.opening(created_at, in_progress_at),
    {
        let id = fresh_id("resp_");
        let message_id = fresh_id("msg_");
        let created_at: u64 = now_seconds();
        let in_progress_at: u64 = now_seconds();
        ResponsesStream::open_at(id, model, message_id, created_at, in_progress_at)
    }

    /// Whether the numbers of the events after an input fit into 64 bits.
    pub fn room(&self, input: &TurnInput) -> (r: bool)
        ensures
            r == self@.has_room(input@),
    {
        let events: u64 = match input {
            TurnInput::Event(TurnEvent::Completed { status, .. }) => if same_text(
                status.as_str(),
                "completed",
            ) {
                4
            } else {
                1
            },
            TurnInput::Disconnected => 0,
            _ => 1,
        };
        self.finished || self.sequence <= u64::MAX - events
    }

    /// Takes the next input, at the time `now`.
    pub fn step_at(&mut self, input: TurnInput, now: u64) -> (r: StreamOutput)
        requires
            old(self)@.has_room(input@),
        ensures
            final(self)@ == old(self)@.next(input@, now),
            r@ == old(self)@.output(input@, now),
    {
        let mut frames: Vec<Frame> = Vec::new();
        if self.finished {
            assert(frames_view(frames@) =~= Seq::empty());
            return StreamOutput { interrupt: false, frames, finished: true };
        }
        let ghost before = self@;
        let interrupt = input.cancels();
        match input.progress() {
            Progress::Text(delta) => {
                self.text.append(delta.as_str());
                self.sequence = self.sequence + 1;
                let body = place(self.message_id.as_str(), "delta", Json::text(delta.as_str()));
                frames.push(response_event("response.output_text.delta", self.sequence, body));
                assert(frames_view(frames@) =~= seq![before.delta(delta@)]);
                return StreamOutput { interrupt: false, frames, finished: false };
            },
            Progress::Ended(Some(failure)) => {
                self.sequence = self.sequence + 1;
                let body = self.response(now, "failed", Some(failure.as_str()));
                frames.push(response_event("response.failed", self.sequence, body));
                assert(frames_view(frames@) =~= seq![before.failed(failure@, now)]);
            },
            Progress::Ended(None) => {
                self.close(&mut frames, now);
            },
            Progress::Abandoned => {
                assert(frames_view(frames@) =~= Seq::empty());
            },
        }
        self.finished = true;
        StreamOutput { interrupt, frames, finished: true }
    }

    /// Takes the next input, now.
    pub fn step(&mut self, input: TurnInput) -> (r: StreamOutput)
        requires
            old(self)@.has_room(input@),
        ensures
            exists|now: u64|
                is_clock_reading(now) && r@ == #[trigger] old(self)@.output(input@, now)
                    && final(self)@ == old(self)@.next(input@, now),
    {
        let now: u64 = now_seconds();
        self.step_at(input, now)
    }

    /// Sends the events that end a successful stream.
    fn close(&mut self, frames: &mut Vec<Frame>, now: u64)
        requires
            old(self)@.sequence + 4 <= u64::MAX,
            old(frames)@.len() == 0,
        ensures
            frames_view(final(frames)@) == old(self)@.completed(now),
            final(self)@ == (ResponsesStreamView { sequence: old(self)@.sequence + 4, ..old(self)@ }),
    {
        let ghost before = self@;
        let item_id = self.message_id.as_str();
        let text = self.text.as_str();
        frames.push(
            response_event(
                "response.output_text.done",
                self.sequence + 1,
                place(item_id, "text", Json::text(text)),
            ),
        );
        frames.push(
            response_event(
                "response.content_part.done",
                self.sequence + 2,
                place(item_id, "part", output_text(text)),
            ),
        );
        frames.push(
            response_event(
                "response.output_item.done",
                self.sequence + 3,
                item_place(message_item(item_id, text, "completed")),
            ),
        );
        frames.push(
            response_event(
                "response.completed",
                self.sequence + 4,
                self.response(now, "completed", None),
            ),
        );
        assert(frames_view(frames@) =~= before.completed(now));
        self.sequence = self.sequence + 4;
    }

    fn response(&self, created_at: u64, status: &str, error: Option<&str>) -> (r: Json)
        ensures
            r@ == self@.response(created_at, status@, text_view(error)),
    {
        field(
            "response",
            response_object_at(
                self.id.as_str(),
                created_at,
                self.model.as_str(),
                self.text.as_str(),
                status,
                error,
                self.message_id.as_str(),
            ),
        )
    }
}

/// What holds of every response: only a completed one has an output, which holds the whole
/// text, and all token counts are zero.
pub proof fn law_responses_hold_their_text(
    id: Seq<char>,
    created_at: u64,
    model: Seq<char>,
    text: Seq<char>,
    status: Seq<char>,
    error: Option<Seq<char>>,
    message_id: Seq<char>,
)
    ensures
        ({
            let response = response_view(id, created_at, model, text, status, error, message_id);
            &&& response.get("output"@) == Some(
                JsonView::Array(
                    if status == "completed"@ {
                        seq![item_view(message_id, text, "completed"@)]
                    } else {
                        Seq::empty()
                    },
                ),
            )
            &&& response.get("usage"@) == Some(response_usage_view())
        }),
{
    reveal_strlit("output");
    reveal_strlit("parallel_tool_calls");
    reveal_strlit("previous_response_id");
    reveal_strlit("store");
    reveal_strlit("temperature");
    reveal_strlit("text");
    reveal_strlit("tool_choice");
    reveal_strlit("tools");
    reveal_strlit("top_p");
    reveal_strlit("truncation");
    reveal_strlit("usage");
    reveal_strlit("metadata");
    assert("output"@.len() == 6 && "parallel_tool_calls"@.len() == 19 && "previous_response_id"@.len()
        == 20 && "store"@.len() == 5 && "temperature"@.len() == 11 && "text"@.len() == 4
        && "tool_choice"@.len() == 11 && "tools"@.len() == 5 && "top_p"@.len() == 5
        && "truncation"@.len() == 10 && "usage"@.len() == 5 && "metadata"@.len() == 8);
    let entries = seq![
        ("id"@, JsonView::String(id)),
        ("object"@, JsonView::String("response"@)),
        ("created_at"@, JsonView::integer(created_at as int)),
        ("status"@, JsonView::String(status)),
        ("error"@, error_view(error)),
        ("incomplete_details"@, JsonView::Null),
        ("instructions"@, JsonView::Null),
        ("model"@, JsonView::String(model)),
        ("output"@, output_view(message_id, text, status)),
        ("parallel_tool_calls"@, JsonView::Bool(true)),
        ("previous_response_id"@, JsonView::Null),
        ("store"@, JsonView::Bool(false)),
        ("temperature"@, JsonView::Null),
        ("text"@, field_view("format"@, field_view("type"@, JsonView::String("text"@)))),
        ("tool_choice"@, JsonView::String("auto"@)),
        ("tools"@, JsonView::Array(Seq::empty())),
        ("top_p"@, JsonView::Null),
        ("truncation"@, JsonView::String("disabled"@)),
        ("usage"@, response_usage_view()),
        ("metadata"@, JsonView::object(Seq::empty())),
    ];
    lemma_object_field(entries, 8);
    lemma_object_field(entries, 18);
}

} // verus!
