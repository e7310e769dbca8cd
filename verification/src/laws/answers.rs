//! What clients are answered.
use crate::chat::{ChatStreamView, completion_view};
use crate::codec::json_text;
use crate::error::{ApiErrorView, AppServerErrorView};
use crate::fields::{
    data_of, fields_are, group_fields, has_integer, has_null, has_text, is_empty_list, is_named,
    last_under, lemma_names, only_item,
};
use crate::frame::FrameView;
use crate::json::JsonView;
use crate::responses::{ResponsesStreamView, item_view, response_view};
use crate::runs::{
    chat_cancellations, chat_frames, collection, concatenated, deltas, ends, law_chat_stream_runs,
    law_collected_answers, law_responses_stream_runs, responses_cancellations, responses_frames,
    run, with_texts,
};
use crate::translate::ForcedToolView;
use crate::turn::{CollectedView, ProgressView, TurnEventView, TurnInputView};
use vstd::prelude::*;

verus! {

broadcast use group_fields;

/// Whether an input is the completion of a turn with the status of success.
pub open spec fn is_success(input: TurnInputView) -> bool {
    input matches TurnInputView::Event(TurnEventView::Completed { status, .. }) && status
        == "completed"@
}

/// Whether an input is more text.
pub open spec fn is_text(input: TurnInputView) -> bool {
    input matches TurnInputView::Event(TurnEventView::Delta(_))
}

/// Whether an input ends a turn for this reason.
pub open spec fn fails_for(input: TurnInputView, reason: Seq<char>) -> bool {
    match input {
        TurnInputView::Event(TurnEventView::Completed { status, error: Some(error) }) => status
            != "completed"@ && reason == error,
        TurnInputView::Event(TurnEventView::Completed { status, error: None }) => status
            != "completed"@ && reason == "Codex turn ended with status "@ + status,
        TurnInputView::Event(TurnEventView::Error(error)) => reason == error,
        TurnInputView::Event(TurnEventView::Delta(_)) => false,
        TurnInputView::Closed => reason == "Codex event stream closed"@,
        TurnInputView::TimedOut => reason == "Codex turn timed out"@,
        TurnInputView::Disconnected => false,
    }
}

/// A turn is answered with all of its text exactly where it completes with the status of
/// success, and with a failure of the server, for the reason that the end gives, where it
/// ends otherwise and the client is still there.
pub proof fn law_turns_are_answered(
    texts: Seq<Seq<char>>,
    end: TurnInputView,
    rest: Seq<TurnInputView>,
    reason: Seq<char>,
)
    requires
        !is_text(end),
    ensures
        ({
            let answer = collection(Seq::empty(), deltas(texts).push(end) + rest);
            &&& is_success(end) <==> answer == CollectedView::Answered(Ok(concatenated(texts)))
            &&& is_success(end) <==> (answer matches CollectedView::Answered(Ok(_)))
            &&& fails_for(end, reason) <==> (answer matches CollectedView::Answered(Err(error))
                && error.message == reason)
            &&& answer matches CollectedView::Answered(Err(error)) ==> error.status == 500
                && error.code == "codex_app_server_error"@
            &&& end is Disconnected <==> answer is Abandoned
        }),
{
    assert(deltas(texts).push(end) + rest == run(texts, end, rest));
    law_collected_answers(Seq::empty(), texts, end, rest);
    assert(Seq::empty() + concatenated(texts) =~= concatenated(texts));
}

/// A turn is cancelled where the time is over or the client is gone, and at no other input.
pub proof fn law_cancelling_inputs(input: TurnInputView)
    ensures
        input.cancels() <==> input is TimedOut || input is Disconnected,
{
}

/// A streamed response takes an input as long as the numbers of the events that it brings fit
/// into 64 bits.
pub proof fn law_room_for_numbers(stream: ResponsesStreamView, input: TurnInputView, now: u64)
    requires
        0 <= stream.sequence <= u64::MAX,
    ensures
        stream.has_room(input) <==> stream.sequence + stream.output(input, now).frames.len()
            <= u64::MAX,
{
}

/// Every chunk of a streamed completion says which completion it belongs to, and has one
/// choice.
pub proof fn law_chunk_fields(stream: ChatStreamView, delta: JsonView, finish_reason: JsonView)
    ensures
        ({
            let frame = stream.chunk(delta, finish_reason);
            let chunk = data_of(frame);
            &&& frame is Data
            &&& fields_are(chunk, set!["id"@, "object"@, "created"@, "model"@, "choices"@])
            &&& has_text(chunk, "id"@, stream.id)
            &&& has_text(chunk, "object"@, "chat.completion.chunk"@)
            &&& has_integer(chunk, "created"@, stream.created as int)
            &&& has_text(chunk, "model"@, stream.model)
            &&& only_item(chunk, "choices"@) matches Some(choice) && fields_are(
                choice,
                set!["index"@, "delta"@, "finish_reason"@],
            ) && has_integer(choice, "index"@, 0) && choice.get("delta"@) == Some(delta)
                && choice.get("finish_reason"@) == Some(finish_reason)
        }),
{
    reveal_with_fuel(last_under, 6);
    lemma_names();
}

/// The delta of the only choice of a chunk.
pub open spec fn delta_of(frame: FrameView) -> Option<JsonView> {
    match only_item(data_of(frame), "choices"@) {
        Some(choice) => choice.get("delta"@),
        None => None,
    }
}

/// The finish reason of the only choice of a chunk.
pub open spec fn finish_reason_of(frame: FrameView) -> Option<JsonView> {
    match only_item(data_of(frame), "choices"@) {
        Some(choice) => choice.get("finish_reason"@),
        None => None,
    }
}

/// Whether a frame is a chunk of this stream.
pub open spec fn is_chunk_of(stream: ChatStreamView, frame: FrameView) -> bool {
    &&& frame is Data
    &&& has_text(data_of(frame), "id"@, stream.id)
    &&& has_text(data_of(frame), "object"@, "chat.completion.chunk"@)
    &&& has_integer(data_of(frame), "created"@, stream.created as int)
    &&& has_text(data_of(frame), "model"@, stream.model)
}

/// The chunk that opens a streamed completion tells the role, and with a forced function its
/// name and the identifier of the call; there is no text yet.
pub proof fn law_opening_chunk(
    stream: ChatStreamView,
    forced: Option<ForcedToolView>,
    call_id: Seq<char>,
)
    ensures
        ({
            let frame = stream.opening(forced, call_id);
            &&& is_chunk_of(stream, frame)
            &&& finish_reason_of(frame) == Some(JsonView::Null)
            &&& delta_of(frame) matches Some(delta) && has_text(delta, "role"@, "assistant"@)
                && match forced {
                None => fields_are(delta, set!["role"@, "content"@]) && has_text(
                    delta,
                    "content"@,
                    ""@,
                ),
                Some(tool) => fields_are(delta, set!["role"@, "tool_calls"@]) && (only_item(
                    delta,
                    "tool_calls"@,
                ) matches Some(call) && fields_are(
                    call,
                    set!["index"@, "id"@, "type"@, "function"@],
                ) && has_integer(call, "index"@, 0) && has_text(call, "id"@, call_id) && has_text(
                    call,
                    "type"@,
                    "function"@,
                ) && (call.get("function"@) matches Some(function) && fields_are(
                    function,
                    set!["name"@, "arguments"@],
                ) && has_text(function, "name"@, tool.name) && has_text(
                    function,
                    "arguments"@,
                    ""@,
                ))),
            }
        }),
{
    reveal_with_fuel(last_under, 6);
    lemma_names();
}

/// A chunk with text carries it as content or, with a forced function, as its arguments, and
/// nothing else.
pub proof fn law_text_chunk(stream: ChatStreamView, text: Seq<char>)
    ensures
        ({
            let frame = stream.text(text);
            &&& is_chunk_of(stream, frame)
            &&& finish_reason_of(frame) == Some(JsonView::Null)
            &&& delta_of(frame) matches Some(delta) && if stream.forced {
                fields_are(delta, set!["tool_calls"@]) && (only_item(delta, "tool_calls"@) matches Some(
                    call,
                ) && fields_are(call, set!["index"@, "function"@]) && has_integer(call, "index"@, 0)
                    && (call.get("function"@) matches Some(function) && fields_are(
                    function,
                    set!["arguments"@],
                ) && has_text(function, "arguments"@, text)))
            } else {
                fields_are(delta, set!["content"@]) && has_text(delta, "content"@, text)
            }
        }),
{
    reveal_with_fuel(last_under, 6);
    lemma_names();
}

/// Whether a value reports no tokens of any kind.
pub open spec fn is_zero_usage(usage: JsonView) -> bool {
    &&& fields_are(usage, set!["prompt_tokens"@, "completion_tokens"@, "total_tokens"@])
    &&& has_integer(usage, "prompt_tokens"@, 0)
    &&& has_integer(usage, "completion_tokens"@, 0)
    &&& has_integer(usage, "total_tokens"@, 0)
}

/// Whether frames end a streamed completion that succeeded: the finish reason with nothing
/// more to read, the token counts, the mark.
pub open spec fn closes_well(stream: ChatStreamView, frames: Seq<FrameView>) -> bool {
    &&& frames.len() == 3
    &&& is_chunk_of(stream, frames[0])
    &&& delta_of(frames[0]) matches Some(delta) && fields_are(delta, Set::empty())
    &&& finish_reason_of(frames[0]) == Some(
        JsonView::String(
            if stream.forced {
                "tool_calls"@
            } else {
                "stop"@
            },
        ),
    )
    &&& is_chunk_of(stream, frames[1])
    &&& fields_are(
        data_of(frames[1]),
        set!["id"@, "object"@, "created"@, "model"@, "choices"@, "usage"@],
    )
    &&& is_empty_list(data_of(frames[1]), "choices"@)
    &&& data_of(frames[1]).get("usage"@) matches Some(usage) && is_zero_usage(usage)
    &&& frames[2] is Done
}

/// Whether frames end a streamed completion that failed for this reason.
pub open spec fn closes_with_error(frames: Seq<FrameView>, reason: Seq<char>) -> bool {
    &&& frames.len() == 2
    &&& frames[0] is Data
    &&& fields_are(data_of(frames[0]), set!["error"@])
    &&& data_of(frames[0]).get("error"@) matches Some(error) && fields_are(
        error,
        set!["message"@, "type"@, "code"@],
    ) && has_text(error, "message"@, reason) && has_text(error, "type"@, "server_error"@)
        && has_text(error, "code"@, "codex_turn_failed"@)
    &&& frames[1] is Done
}

proof fn lemma_closing_frames(stream: ChatStreamView, reason: Seq<char>)
    ensures
        closes_well(stream, stream.closing(None)),
        closes_with_error(stream.closing(Some(reason)), reason),
{
    reveal_with_fuel(last_under, 7);
    lemma_names();
}

/// The frames of a streamed completion after its opening, for every way a turn can go: a
/// chunk for each text, in their order, and then the finish reason and the token counts where
/// the turn completed with the status of success, the reason where it ended otherwise, and
/// nothing where the client is gone. The turn is cancelled once where it is still running.
pub proof fn law_streamed_completions(
    stream: ChatStreamView,
    texts: Seq<Seq<char>>,
    end: TurnInputView,
    rest: Seq<TurnInputView>,
    reason: Seq<char>,
)
    requires
        !stream.finished,
        !is_text(end),
    ensures
        ({
            let inputs = deltas(texts).push(end) + rest;
            let frames = chat_frames(stream, inputs);
            let n = texts.len() as int;
            &&& frames.len() >= n
            &&& forall|i: int| 0 <= i < n ==> #[trigger] frames[i] == stream.text(texts[i])
            &&& is_success(end) ==> closes_well(stream, frames.skip(n))
            &&& fails_for(end, reason) ==> closes_with_error(frames.skip(n), reason)
            &&& end is Disconnected ==> frames.len() == n
            &&& chat_cancellations(stream, inputs) == if end is TimedOut || end is Disconnected {
                1nat
            } else {
                0nat
            }
        }),
{
    assert(deltas(texts).push(end) + rest == run(texts, end, rest));
    law_chat_stream_runs(stream, texts, end, rest);
    lemma_closing_frames(stream, reason);
    let sent = texts.map_values(|text: Seq<char>| stream.text(text));
    let frames = chat_frames(stream, run(texts, end, rest));
    match end.progress() {
        ProgressView::Ended(failure) => {
            assert(frames == sent + stream.closing(failure));
            assert(frames.skip(texts.len() as int) =~= stream.closing(failure));
        },
        _ => {
            assert(frames =~= sent);
        },
    }
}

/// A completion says what it is, holds the text as content or, with a forced function, as the
/// arguments of its call, and reports no tokens.
pub proof fn law_completion_fields(
    id: Seq<char>,
    created: u64,
    model: Seq<char>,
    forced: Option<ForcedToolView>,
    call_id: Seq<char>,
    text: Seq<char>,
)
    ensures
        ({
            let c = completion_view(id, created, model, forced, call_id, text);
            &&& fields_are(c, set!["id"@, "object"@, "created"@, "model"@, "choices"@, "usage"@])
            &&& has_text(c, "id"@, id)
            &&& has_text(c, "object"@, "chat.completion"@)
            &&& has_integer(c, "created"@, created as int)
            &&& has_text(c, "model"@, model)
            &&& c.get("usage"@) matches Some(usage) && is_zero_usage(usage)
            &&& only_item(c, "choices"@) matches Some(choice) && fields_are(
                choice,
                set!["index"@, "message"@, "finish_reason"@],
            ) && has_integer(choice, "index"@, 0) && (choice.get("message"@) matches Some(message)
                && has_text(message, "role"@, "assistant"@) && match forced {
                None => has_text(choice, "finish_reason"@, "stop"@) && fields_are(
                    message,
                    set!["role"@, "content"@],
                ) && has_text(message, "content"@, text),
                Some(tool) => has_text(choice, "finish_reason"@, "tool_calls"@) && fields_are(
                    message,
                    set!["role"@, "content"@, "tool_calls"@],
                ) && has_null(message, "content"@) && (only_item(message, "tool_calls"@) matches Some(
                    call,
                ) && fields_are(call, set!["id"@, "type"@, "function"@]) && has_text(
                    call,
                    "id"@,
                    call_id,
                ) && has_text(call, "type"@, "function"@) && (call.get("function"@) matches Some(
                    function,
                ) && fields_are(function, set!["name"@, "arguments"@]) && has_text(
                    function,
                    "name"@,
                    tool.name,
                ) && has_text(function, "arguments"@, text))),
            })
        }),
{
    reveal_with_fuel(last_under, 7);
    lemma_names();
}

/// Whether a value is a part of output that holds this text.
pub open spec fn is_output_text(part: JsonView, text: Seq<char>) -> bool {
    &&& fields_are(part, set!["type"@, "text"@, "annotations"@])
    &&& has_text(part, "type"@, "output_text"@)
    &&& has_text(part, "text"@, text)
    &&& is_empty_list(part, "annotations"@)
}

/// Whether a value is a message of the assistant that holds this text.
pub open spec fn is_message(item: JsonView, id: Seq<char>, status: Seq<char>, text: Seq<char>) -> bool {
    &&& fields_are(item, set!["id"@, "type"@, "status"@, "role"@, "content"@])
    &&& has_text(item, "id"@, id)
    &&& has_text(item, "type"@, "message"@)
    &&& has_text(item, "status"@, status)
    &&& has_text(item, "role"@, "assistant"@)
    &&& only_item(item, "content"@) matches Some(part) && is_output_text(part, text)
}

proof fn lemma_message(id: Seq<char>, text: Seq<char>, status: Seq<char>)
    ensures
        is_message(item_view(id, text, status), id, status, text),
{
    reveal_with_fuel(last_under, 6);
    lemma_names();
}

/// Whether a value is a response that stands so: its output is its message where it is
/// completed, and empty where it is not; it reports no tokens.
pub open spec fn is_response(
    r: JsonView,
    id: Seq<char>,
    created_at: u64,
    model: Seq<char>,
    text: Seq<char>,
    status: Seq<char>,
    error: Option<Seq<char>>,
    message_id: Seq<char>,
) -> bool {
    &&& has_text(r, "id"@, id)
    &&& has_text(r, "object"@, "response"@)
    &&& has_integer(r, "created_at"@, created_at as int)
    &&& has_text(r, "status"@, status)
    &&& match error {
        Some(message) => r.get("error"@) matches Some(e) && fields_are(e, set!["code"@, "message"@])
            && has_text(e, "code"@, "codex_turn_failed"@) && has_text(e, "message"@, message),
        None => has_null(r, "error"@),
    }
    &&& has_null(r, "incomplete_details"@)
    &&& has_null(r, "instructions"@)
    &&& has_text(r, "model"@, model)
    &&& if status == "completed"@ {
        only_item(r, "output"@) matches Some(item) && is_message(item, message_id, "completed"@, text)
    } else {
        is_empty_list(r, "output"@)
    }
    &&& r.get("parallel_tool_calls"@) == Some(JsonView::Bool(true))
    &&& has_null(r, "previous_response_id"@)
    &&& r.get("store"@) == Some(JsonView::Bool(false))
    &&& has_null(r, "temperature"@)
    &&& r.get("text"@) matches Some(t) && fields_are(t, set!["format"@]) && (t.get("format"@) matches Some(
        format,
    ) && fields_are(format, set!["type"@]) && has_text(format, "type"@, "text"@))
    &&& has_text(r, "tool_choice"@, "auto"@)
    &&& is_empty_list(r, "tools"@)
    &&& has_null(r, "top_p"@)
    &&& has_text(r, "truncation"@, "disabled"@)
    &&& r.get("usage"@) matches Some(usage) && is_zero_response_usage(usage)
    &&& r.get("metadata"@) matches Some(metadata) && fields_are(metadata, Set::empty())
    &&& fields_are(
        r,
        set![
            "id"@,
            "object"@,
            "created_at"@,
            "status"@,
            "error"@,
            "incomplete_details"@,
            "instructions"@,
            "model"@,
            "output"@,
            "parallel_tool_calls"@,
            "previous_response_id"@,
            "store"@,
            "temperature"@,
            "text"@,
            "tool_choice"@,
            "tools"@,
            "top_p"@,
            "truncation"@,
            "usage"@,
            "metadata"@,
        ],
    )
}

/// Whether a value reports no tokens of any kind.
pub open spec fn is_zero_response_usage(usage: JsonView) -> bool {
    &&& has_integer(usage, "input_tokens"@, 0)
    &&& has_integer(usage, "output_tokens"@, 0)
    &&& has_integer(usage, "total_tokens"@, 0)
    &&& usage.get("input_tokens_details"@) matches Some(details) && fields_are(
        details,
        set!["cached_tokens"@],
    ) && has_integer(details, "cached_tokens"@, 0)
    &&& usage.get("output_tokens_details"@) matches Some(details) && fields_are(
        details,
        set!["reasoning_tokens"@],
    ) && has_integer(details, "reasoning_tokens"@, 0)
    &&& fields_are(
        usage,
        set![
            "input_tokens"@,
            "input_tokens_details"@,
            "output_tokens"@,
            "output_tokens_details"@,
            "total_tokens"@,
        ],
    )
}

/// A response says how it stands.
pub proof fn law_response_fields(
    id: Seq<char>,
    created_at: u64,
    model: Seq<char>,
    text: Seq<char>,
    status: Seq<char>,
    error: Option<Seq<char>>,
    message_id: Seq<char>,
)
    ensures
        is_response(
            response_view(id, created_at, model, text, status, error, message_id),
            id,
            created_at,
            model,
            text,
            status,
            error,
            message_id,
        ),
{
    reveal_with_fuel(last_under, 21);
    lemma_names();
    lemma_message(message_id, text, "completed"@);
}

/// Whether a frame is an event about the text of a stream: of this name and number, with the
/// place of the text, and besides that with this field alone.
pub open spec fn is_text_event(
    stream: ResponsesStreamView,
    frame: FrameView,
    name: Seq<char>,
    number: int,
    field: Seq<char>,
) -> bool {
    let data = data_of(frame);
    &&& is_named(frame, name)
    &&& fields_are(
        data,
        set![
            "item_id"@,
            "output_index"@,
            "content_index"@,
            "type"@,
            "sequence_number"@,
            field,
        ],
    )
    &&& has_text(data, "type"@, name)
    &&& has_integer(data, "sequence_number"@, number)
    &&& has_text(data, "item_id"@, stream.message_id)
    &&& has_integer(data, "output_index"@, 0)
    &&& has_integer(data, "content_index"@, 0)
}

/// Whether a frame is an event about the message of a stream: of this name and number, with
/// the place of the message, which stands so.
pub open spec fn is_item_event(
    stream: ResponsesStreamView,
    frame: FrameView,
    name: Seq<char>,
    number: int,
    status: Seq<char>,
    text: Seq<char>,
) -> bool {
    let data = data_of(frame);
    &&& is_named(frame, name)
    &&& fields_are(data, set!["output_index"@, "item"@, "type"@, "sequence_number"@])
    &&& has_text(data, "type"@, name)
    &&& has_integer(data, "sequence_number"@, number)
    &&& has_integer(data, "output_index"@, 0)
    &&& data.get("item"@) matches Some(item) && is_message(item, stream.message_id, status, text)
}

/// Whether a frame is an event about a response as a whole: of this name and number, with the
/// response, which stands so.
pub open spec fn is_response_event(
    stream: ResponsesStreamView,
    frame: FrameView,
    name: Seq<char>,
    number: int,
    created_at: u64,
    text: Seq<char>,
    status: Seq<char>,
    error: Option<Seq<char>>,
) -> bool {
    let data = data_of(frame);
    &&& is_named(frame, name)
    &&& fields_are(data, set!["response"@, "type"@, "sequence_number"@])
    &&& has_text(data, "type"@, name)
    &&& has_integer(data, "sequence_number"@, number)
    &&& data.get("response"@) matches Some(response) && is_response(
        response,
        stream.id,
        created_at,
        stream.model,
        text,
        status,
        error,
        stream.message_id,
    )
}

/// A streamed response opens with the response, twice, with its message and with the part of
/// it that will hold the text; there is no text yet.
pub proof fn law_opening_events(stream: ResponsesStreamView, created_at: u64, in_progress_at: u64)
    ensures
        ({
            let frames = stream.opening(created_at, in_progress_at);
            &&& frames.len() == 4
            &&& is_response_event(
                stream,
                frames[0],
                "response.created"@,
                1,
                created_at,
                stream.text,
                "in_progress"@,
                None,
            )
            &&& is_response_event(
                stream,
                frames[1],
                "response.in_progress"@,
                2,
                in_progress_at,
                stream.text,
                "in_progress"@,
                None,
            )
            &&& is_item_event(
                stream,
                frames[2],
                "response.output_item.added"@,
                3,
                "in_progress"@,
                ""@,
            )
            &&& is_text_event(stream, frames[3], "response.content_part.added"@, 4, "part"@)
            &&& data_of(frames[3]).get("part"@) matches Some(part) && is_output_text(part, ""@)
        }),
{
    reveal_with_fuel(last_under, 6);
    lemma_names();
    lemma_message(stream.message_id, ""@, "in_progress"@);
    law_response_fields(
        stream.id,
        created_at,
        stream.model,
        stream.text,
        "in_progress"@,
        None,
        stream.message_id,
    );
    law_response_fields(
        stream.id,
        in_progress_at,
        stream.model,
        stream.text,
        "in_progress"@,
        None,
        stream.message_id,
    );
}

/// An event with text carries it, in its place.
pub proof fn law_delta_event(stream: ResponsesStreamView, text: Seq<char>)
    ensures
        is_text_event(
            stream,
            stream.delta(text),
            "response.output_text.delta"@,
            stream.sequence + 1,
            "delta"@,
        ),
        has_text(data_of(stream.delta(text)), "delta"@, text),
{
    reveal_with_fuel(last_under, 6);
    lemma_names();
}

/// Whether frames end a streamed response that succeeded with this text: four events, each of
/// which repeats it.
pub open spec fn ends_well(
    stream: ResponsesStreamView,
    frames: Seq<FrameView>,
    number: int,
    text: Seq<char>,
    now: u64,
) -> bool {
    &&& frames.len() == 4
    &&& is_text_event(stream, frames[0], "response.output_text.done"@, number, "text"@)
    &&& has_text(data_of(frames[0]), "text"@, text)
    &&& is_text_event(stream, frames[1], "response.content_part.done"@, number + 1, "part"@)
    &&& data_of(frames[1]).get("part"@) matches Some(part) && is_output_text(part, text)
    &&& is_item_event(
        stream,
        frames[2],
        "response.output_item.done"@,
        number + 2,
        "completed"@,
        text,
    )
    &&& is_response_event(
        stream,
        frames[3],
        "response.completed"@,
        number + 3,
        now,
        text,
        "completed"@,
        None,
    )
}

proof fn lemma_completed_events(stream: ResponsesStreamView, now: u64)
    ensures
        ends_well(stream, stream.completed(now), stream.sequence + 1, stream.text, now),
{
    reveal_with_fuel(last_under, 6);
    lemma_names();
    lemma_message(stream.message_id, stream.text, "completed"@);
    law_response_fields(
        stream.id,
        now,
        stream.model,
        stream.text,
        "completed"@,
        None,
        stream.message_id,
    );
}

proof fn lemma_failed_event(stream: ResponsesStreamView, reason: Seq<char>, now: u64)
    ensures
        is_response_event(
            stream,
            stream.failed(reason, now),
            "response.failed"@,
            stream.sequence + 1,
            now,
            stream.text,
            "failed"@,
            Some(reason),
        ),
{
    reveal_with_fuel(last_under, 6);
    lemma_names();
    law_response_fields(
        stream.id,
        now,
        stream.model,
        stream.text,
        "failed"@,
        Some(reason),
        stream.message_id,
    );
}

/// The events of a streamed response after its opening, for every way a turn can go: one for
/// each text, in their order, and then the four that repeat the whole text where the turn
/// completed with the status of success, the failed response with the reason where it ended
/// otherwise, and nothing where the client is gone. The turn is cancelled once where it is
/// still running.
pub proof fn law_streamed_responses(
    stream: ResponsesStreamView,
    texts: Seq<Seq<char>>,
    end: TurnInputView,
    rest: Seq<TurnInputView>,
    times: Seq<u64>,
    reason: Seq<char>,
)
    requires
        !stream.finished,
        stream.text.len() == 0,
        !is_text(end),
        times.len() == texts.len() + 1 + rest.len(),
    ensures
        ({
            let inputs = deltas(texts).push(end) + rest;
            let frames = responses_frames(stream, inputs, times);
            let n = texts.len() as int;
            let (number, now) = (stream.sequence + 1 + n, times[n]);
            &&& frames.len() >= n
            &&& forall|i: int|
                0 <= i < n ==> is_text_event(
                    stream,
                    #[trigger] frames[i],
                    "response.output_text.delta"@,
                    stream.sequence + 1 + i,
                    "delta"@,
                ) && has_text(data_of(frames[i]), "delta"@, texts[i])
            &&& is_success(end) ==> ends_well(
                stream,
                frames.skip(n),
                number,
                concatenated(texts),
                now,
            )
            &&& fails_for(end, reason) ==> frames.len() == n + 1 && is_response_event(
                stream,
                frames[n],
                "response.failed"@,
                number,
                now,
                concatenated(texts),
                "failed"@,
                Some(reason),
            )
            &&& end is Disconnected ==> frames.len() == n
            &&& responses_cancellations(stream, inputs, times) == if end is TimedOut
                || end is Disconnected {
                1nat
            } else {
                0nat
            }
        }),
{
    let inputs = run(texts, end, rest);
    assert(deltas(texts).push(end) + rest == inputs);
    law_responses_stream_runs(stream, texts, end, rest, times);
    let n = texts.len() as int;
    let now = times[n];
    let frames = responses_frames(stream, inputs, times);
    let done = with_texts(stream, texts);
    assert(stream.text + concatenated(texts) =~= concatenated(texts));
    assert forall|i: int| 0 <= i < n implies is_text_event(
        stream,
        #[trigger] frames[i],
        "response.output_text.delta"@,
        stream.sequence + 1 + i,
        "delta"@,
    ) && has_text(data_of(frames[i]), "delta"@, texts[i]) by {
        law_delta_event(
            ResponsesStreamView { sequence: stream.sequence + i, ..stream },
            texts[i],
        );
    }
    lemma_completed_events(done, now);
    lemma_failed_event(done, reason, now);
    if is_success(end) {
        assert(frames.skip(n) =~= done.completed(now));
    }
}

/// The text of the last frame of a streamed response and the answer without a stream are the
/// same: both are all the texts of the turn.
pub proof fn law_all_answers_agree(
    chat: ChatStreamView,
    responses: ResponsesStreamView,
    texts: Seq<Seq<char>>,
    end: TurnInputView,
    rest: Seq<TurnInputView>,
    times: Seq<u64>,
)
    requires
        !chat.finished,
        !responses.finished,
        responses.text.len() == 0,
        is_success(end),
        times.len() == texts.len() + 1 + rest.len(),
    ensures
        ({
            let inputs = deltas(texts).push(end) + rest;
            let n = texts.len() as int;
            let last = responses_frames(responses, inputs, times).last();
            &&& collection(Seq::empty(), inputs) == CollectedView::Answered(Ok(concatenated(texts)))
            &&& closes_well(chat, chat_frames(chat, inputs).skip(n))
            &&& data_of(last).get("response"@) matches Some(response) && only_item(
                response,
                "output"@,
            ) matches Some(item) && only_item(item, "content"@) matches Some(part) && has_text(
                part,
                "text"@,
                concatenated(texts),
            )
        }),
{
    law_turns_are_answered(texts, end, rest, Seq::empty());
    law_streamed_completions(chat, texts, end, rest, Seq::empty());
    law_streamed_responses(responses, texts, end, rest, times, Seq::empty());
    let n = texts.len() as int;
    let frames = responses_frames(responses, deltas(texts).push(end) + rest, times);
    assert(frames.last() == frames.skip(n)[3]);
}

/// A frame is written as the compact JSON text of its value, and the mark as its own text.
pub proof fn law_frame_texts(frame: FrameView)
    ensures
        frame is Done ==> frame.data_text() == "[DONE]"@,
        !(frame is Done) ==> frame.data_text() == json_text(data_of(frame)),
{
}

/// A refusal says why, and with which status: 400 for the request's own fault, 401 for a
/// missing token and 500 for a fault of the gateway or of Codex.
pub proof fn law_refusals(message: Seq<char>, error: ApiErrorView)
    ensures
        ApiErrorView::bad_request(message).status == 400,
        ApiErrorView::bad_request(message).message == message,
        ApiErrorView::bad_request(message).code == "invalid_request_error"@,
        ApiErrorView::server(message).status == 500,
        ApiErrorView::server(message).message == message,
        ApiErrorView::server(message).code == "codex_app_server_error"@,
        ApiErrorView::unauthorized().status == 401,
        ApiErrorView::unauthorized().message == "invalid or missing bearer token"@,
        ApiErrorView::unauthorized().code == "invalid_api_key"@,
        fields_are(error.body(), set!["error"@]),
        error.body().get("error"@) matches Some(details) && fields_are(
            details,
            set!["message"@, "type"@, "code"@],
        ) && has_text(details, "message"@, error.message) && has_text(
            details,
            "type"@,
            "server_error"@,
        ) && has_text(details, "code"@, error.code),
{
    reveal_with_fuel(last_under, 6);
    lemma_names();
}

/// A failure of the app-server is told with the reason that it came with.
pub proof fn law_app_server_failures(reason: Seq<char>)
    ensures
        AppServerErrorView::Spawn(reason).message() == "failed to start Codex app-server: "@ + reason,
        AppServerErrorView::Closed.message() == "Codex app-server transport closed"@,
        AppServerErrorView::Rpc(reason).message() == "Codex app-server RPC failed: "@ + reason,
        AppServerErrorView::Protocol(reason).message() == "invalid Codex app-server response: "@
            + reason,
{
}

} // verus!
