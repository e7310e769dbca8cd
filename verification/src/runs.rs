//! Whole runs of turns: what comes of a sequence of inputs.
use crate::chat::{ChatStreamView, empty_usage_view, finish_reason_view, text_delta_view};
use crate::error::ApiErrorView;
use crate::frame::FrameView;
use crate::json::{JsonView, lemma_object_field, lemma_object_has_no_other_field, single};
use crate::responses::{
    ResponsesStreamView, event_view, item_place_view, item_view, output_text_view, place_view,
};
use crate::turn::{
    CollectedView, ProgressView, TurnEventView, TurnInputView, collected_outcome, collected_text,
};
use vstd::prelude::*;

verus! {

/// The inputs that bring these texts, one after the other.
pub open spec fn deltas(texts: Seq<Seq<char>>) -> Seq<TurnInputView> {
    texts.map_values(|text: Seq<char>| TurnInputView::Event(TurnEventView::Delta(text)))
}

/// Texts, one after the other.
pub open spec fn concatenated(texts: Seq<Seq<char>>) -> Seq<char>
    decreases texts.len(),
{
    if texts.len() == 0 {
        Seq::empty()
    } else {
        texts.first() + concatenated(texts.drop_first())
    }
}

/// Whether an input ends a turn.
pub open spec fn ends(input: TurnInputView) -> bool {
    !(input.progress() is Text)
}

/// A run: texts, then an input that ends the turn, then whatever may still come.
pub open spec fn run(texts: Seq<Seq<char>>, end: TurnInputView, rest: Seq<TurnInputView>) -> Seq<
    TurnInputView,
> {
    deltas(texts).push(end) + rest
}

/// Any sequence of inputs is a number of texts, or it is a run.
pub proof fn law_inputs_are_texts_or_a_run(inputs: Seq<TurnInputView>)
    ensures
        (exists|texts: Seq<Seq<char>>| inputs == #[trigger] deltas(texts)) || (exists|
            texts: Seq<Seq<char>>,
            end: TurnInputView,
            rest: Seq<TurnInputView>,
        | ends(end) && inputs == #[trigger] run(texts, end, rest)),
    decreases inputs.len(),
{
    if inputs.len() == 0 {
        assert(inputs =~= deltas(Seq::empty()));
    } else if ends(inputs.first()) {
        assert(inputs =~= run(Seq::empty(), inputs.first(), inputs.drop_first()));
    } else {
        let tail = inputs.drop_first();
        law_inputs_are_texts_or_a_run(tail);
        let text = inputs.first()->Event_0->Delta_0;
        let first = TurnInputView::Event(TurnEventView::Delta(text));
        assert(inputs =~= seq![first] + tail);
        if exists|texts: Seq<Seq<char>>| tail == #[trigger] deltas(texts) {
            let texts = choose|texts: Seq<Seq<char>>| tail == #[trigger] deltas(texts);
            assert(deltas(seq![text] + texts) =~= seq![first] + deltas(texts));
        } else {
            let (texts, end, rest) = choose|
                texts: Seq<Seq<char>>,
                end: TurnInputView,
                rest: Seq<TurnInputView>,
            | ends(end) && tail == #[trigger] run(texts, end, rest);
            assert(deltas(seq![text] + texts) =~= seq![first] + deltas(texts));
            assert(run(seq![text] + texts, end, rest) =~= seq![first] + run(texts, end, rest));
        }
    }
}

/// A run with at least one text, without the first of them.
proof fn lemma_run_tail(texts: Seq<Seq<char>>, end: TurnInputView, rest: Seq<TurnInputView>)
    ensures
        texts.len() > 0 ==> run(texts, end, rest).first() == TurnInputView::Event(
            TurnEventView::Delta(texts.first()),
        ) && run(texts, end, rest).drop_first() == run(texts.drop_first(), end, rest),
        texts.len() == 0 ==> run(texts, end, rest).first() == end && run(texts, end, rest).drop_first()
            == rest,
        run(texts, end, rest).len() > 0,
{
    if texts.len() > 0 {
        assert(run(texts, end, rest).drop_first() =~= run(texts.drop_first(), end, rest));
    } else {
        assert(run(texts, end, rest).drop_first() =~= rest);
    }
}

/// Where a collector that starts with `text` stands after these inputs.
pub open spec fn collection(text: Seq<char>, inputs: Seq<TurnInputView>) -> CollectedView
    decreases inputs.len(),
{
    if inputs.len() == 0 {
        CollectedView::Pending
    } else {
        match collected_outcome(text, inputs.first()) {
            CollectedView::Pending => collection(
                collected_text(text, inputs.first()),
                inputs.drop_first(),
            ),
            outcome => outcome,
        }
    }
}

/// A request without a stream is answered with all texts of the turn, in their order, if the
/// turn completes, and with the reason if it fails; nothing that comes later counts.
pub proof fn law_collected_answers(
    text: Seq<char>,
    texts: Seq<Seq<char>>,
    end: TurnInputView,
    rest: Seq<TurnInputView>,
)
    requires
        ends(end),
    ensures
        collection(text, run(texts, end, rest)) == match end.progress() {
            ProgressView::Ended(None) => CollectedView::Answered(Ok(text + concatenated(texts))),
            ProgressView::Ended(Some(failure)) => CollectedView::Answered(
                Err(ApiErrorView::server(failure)),
            ),
            _ => CollectedView::Abandoned,
        },
    decreases texts.len(),
{
    lemma_run_tail(texts, end, rest);
    if texts.len() > 0 {
        law_collected_answers(text + texts.first(), texts.drop_first(), end, rest);
        assert(text + texts.first() + concatenated(texts.drop_first()) =~= text + concatenated(texts));
    } else {
        assert(text + concatenated(texts) =~= text);
    }
}

/// The frames that a streamed completion sends for these inputs.
pub open spec fn chat_frames(stream: ChatStreamView, inputs: Seq<TurnInputView>) -> Seq<FrameView>
    decreases inputs.len(),
{
    if inputs.len() == 0 {
        Seq::empty()
    } else {
        stream.output(inputs.first()).frames + chat_frames(
            stream.next(inputs.first()),
            inputs.drop_first(),
        )
    }
}

/// How often a streamed completion cancels its turn on these inputs.
pub open spec fn chat_cancellations(stream: ChatStreamView, inputs: Seq<TurnInputView>) -> nat
    decreases inputs.len(),
{
    if inputs.len() == 0 {
        0
    } else {
        chat_cancellations(stream.next(inputs.first()), inputs.drop_first()) + if stream.output(
            inputs.first(),
        ).interrupt {
            1nat
        } else {
            0nat
        }
    }
}

/// A streamed completion sends nothing and cancels nothing once it is finished.
pub proof fn law_finished_completions_are_silent(stream: ChatStreamView, inputs: Seq<TurnInputView>)
    requires
        stream.finished,
    ensures
        chat_frames(stream, inputs) == Seq::<FrameView>::empty(),
        chat_cancellations(stream, inputs) == 0,
    decreases inputs.len(),
{
    if inputs.len() > 0 {
        law_finished_completions_are_silent(stream.next(inputs.first()), inputs.drop_first());
    }
}

/// A streamed completion sends the texts of the turn in their order, a chunk each, and then
/// what closes it: the reason if the turn failed, the finish reason and the usage if not. It
/// cancels the turn once if the time is over or the client is gone, and never otherwise.
pub proof fn law_chat_stream_runs(
    stream: ChatStreamView,
    texts: Seq<Seq<char>>,
    end: TurnInputView,
    rest: Seq<TurnInputView>,
)
    requires
        !stream.finished,
        ends(end),
    ensures
        chat_frames(stream, run(texts, end, rest)) == texts.map_values(
            |text: Seq<char>| stream.text(text),
        ) + match end.progress() {
            ProgressView::Ended(failure) => stream.closing(failure),
            _ => Seq::empty(),
        },
        chat_cancellations(stream, run(texts, end, rest)) == if end.cancels() {
            1nat
        } else {
            0nat
        },
    decreases texts.len(),
{
    lemma_run_tail(texts, end, rest);
    let sent = |text: Seq<char>| stream.text(text);
    if texts.len() > 0 {
        assert(stream.next(run(texts, end, rest).first()) == stream);
        law_chat_stream_runs(stream, texts.drop_first(), end, rest);
        assert(texts.map_values(sent) =~= seq![stream.text(texts.first())]
            + texts.drop_first().map_values(sent));
        assert(chat_frames(stream, run(texts, end, rest)) =~= texts.map_values(sent)
            + match end.progress() {
            ProgressView::Ended(failure) => stream.closing(failure),
            _ => Seq::empty(),
        });
    } else {
        law_finished_completions_are_silent(stream.next(end), rest);
        assert(texts.map_values(sent) =~= Seq::empty());
        assert(chat_frames(stream, run(texts, end, rest)) =~= stream.output(end).frames);
    }
}

/// The mark that nothing follows ends every streamed completion whose client is still there,
/// and comes nowhere else.
pub proof fn law_chat_streams_end_with_the_mark(
    stream: ChatStreamView,
    texts: Seq<Seq<char>>,
    end: TurnInputView,
    rest: Seq<TurnInputView>,
)
    requires
        !stream.finished,
        ends(end),
    ensures
        ({
            let frames = chat_frames(stream, run(texts, end, rest));
            &&& !(end is Disconnected) ==> frames.len() > 0 && frames.last() == FrameView::Done
            &&& forall|i: int| 0 <= i < frames.len() - 1 ==> !(#[trigger] frames[i] is Done)
        }),
{
    law_chat_stream_runs(stream, texts, end, rest);
}

/// The text in a chunk of a streamed completion: the arguments of the forced function, or
/// the content.
pub open spec fn chunk_text(forced: bool, frame: FrameView) -> Option<Seq<char>> {
    match frame {
        FrameView::Data(chunk) => match chunk.get("choices"@) {
            Some(JsonView::Array(choices)) if choices.len() > 0 => match choices[0].get("delta"@) {
                Some(delta) => if forced {
                    match delta.get("tool_calls"@) {
                        Some(JsonView::Array(calls)) if calls.len() > 0 => calls[0].text_in(
                            "function"@,
                            "arguments"@,
                        ),
                        _ => None,
                    }
                } else {
                    delta.text_at("content"@)
                },
                None => None,
            },
            _ => None,
        },
        _ => None,
    }
}

/// What a chunk of a streamed completion says of its text, whatever its delta is.
proof fn lemma_chunk_delta(stream: ChatStreamView, delta: JsonView, finish_reason: JsonView)
    ensures
        stream.chunk(delta, finish_reason)->Data_0.get("choices"@) matches Some(
            JsonView::Array(choices),
        ) && choices.len() == 1 && choices[0].get("delta"@) == Some(delta),
{
    reveal_strlit("choices");
    reveal_strlit("delta");
    reveal_strlit("finish_reason");
    assert("choices"@.len() == 7 && "delta"@.len() == 5 && "finish_reason"@.len() == 13);
    let choice = seq![
        ("index"@, JsonView::integer(0)),
        ("delta"@, delta),
        ("finish_reason"@, finish_reason),
    ];
    let chunk = seq![
        ("id"@, JsonView::String(stream.id)),
        ("object"@, JsonView::String("chat.completion.chunk"@)),
        ("created"@, JsonView::integer(stream.created as int)),
        ("model"@, JsonView::String(stream.model)),
        ("choices"@, single(JsonView::object(choice))),
    ];
    lemma_object_field(chunk, 4);
    lemma_object_field(choice, 1);
}

/// What a client reads from a chunk of a streamed completion is the text that it was sent
/// for.
pub proof fn law_chunks_carry_the_text(stream: ChatStreamView, text: Seq<char>)
    ensures
        chunk_text(stream.forced, stream.text(text)) == Some(text),
{
    lemma_chunk_delta(stream, text_delta_view(stream.forced, text), JsonView::Null);
    if stream.forced {
        let arguments = seq![("arguments"@, JsonView::String(text))];
        let call = seq![
            ("index"@, JsonView::integer(0)),
            ("function"@, JsonView::object(arguments)),
        ];
        lemma_object_field(arguments, 0);
        lemma_object_field(call, 1);
        lemma_object_field(seq![("tool_calls"@, single(JsonView::object(call)))], 0);
    } else {
        lemma_object_field(seq![("content"@, JsonView::String(text))], 0);
    }
}

/// The frames that close a streamed completion carry no text.
pub proof fn law_closing_frames_carry_no_text(
    stream: ChatStreamView,
    failure: Option<Seq<char>>,
    i: int,
)
    requires
        0 <= i < stream.closing(failure).len(),
    ensures
        chunk_text(stream.forced, stream.closing(failure)[i]) is None,
{
    reveal_strlit("choices");
    reveal_strlit("error");
    reveal_strlit("usage");
    assert("choices"@.len() == 7 && "error"@.len() == 5 && "usage"@.len() == 5);
    match failure {
        Some(message) => {
            let details = JsonView::object(
                seq![
                    ("message"@, JsonView::String(message)),
                    ("type"@, JsonView::String("server_error"@)),
                    ("code"@, JsonView::String("codex_turn_failed"@)),
                ],
            );
            lemma_object_has_no_other_field(seq![("error"@, details)], "choices"@);
        },
        None => {
            let nothing = JsonView::object(Seq::empty());
            lemma_chunk_delta(stream, nothing, finish_reason_view(stream.forced));
            lemma_object_has_no_other_field(Seq::empty(), "content"@);
            lemma_object_has_no_other_field(Seq::empty(), "tool_calls"@);
            let usage = seq![
                ("id"@, JsonView::String(stream.id)),
                ("object"@, JsonView::String("chat.completion.chunk"@)),
                ("created"@, JsonView::integer(stream.created as int)),
                ("model"@, JsonView::String(stream.model)),
                ("choices"@, JsonView::Array(Seq::empty())),
                ("usage"@, empty_usage_view()),
            ];
            lemma_object_field(usage, 4);
        },
    }
}

/// The text that a client reads from the frames of a streamed completion.
pub open spec fn read_text(forced: bool, frames: Seq<FrameView>) -> Seq<char>
    decreases frames.len(),
{
    if frames.len() == 0 {
        Seq::empty()
    } else {
        (match chunk_text(forced, frames.first()) {
            Some(text) => text,
            None => Seq::empty(),
        }) + read_text(forced, frames.drop_first())
    }
}

proof fn lemma_read_texts(stream: ChatStreamView, texts: Seq<Seq<char>>, closing: Seq<FrameView>)
    requires
        forall|i: int|
            0 <= i < closing.len() ==> chunk_text(stream.forced, #[trigger] closing[i]) is None,
    ensures
        read_text(
            stream.forced,
            texts.map_values(|text: Seq<char>| stream.text(text)) + closing,
        ) == concatenated(texts),
    decreases texts.len() + closing.len(),
{
    let sent = |text: Seq<char>| stream.text(text);
    let frames = texts.map_values(sent) + closing;
    if texts.len() > 0 {
        law_chunks_carry_the_text(stream, texts.first());
        lemma_read_texts(stream, texts.drop_first(), closing);
        assert(frames.drop_first() =~= texts.drop_first().map_values(sent) + closing);
    } else if closing.len() > 0 {
        let tail = closing.drop_first();
        assert(frames.first() == closing[0]);
        assert forall|i: int| 0 <= i < tail.len() implies chunk_text(
            stream.forced,
            #[trigger] tail[i],
        ) is None by {
            assert(tail[i] == closing[i + 1]);
        }
        lemma_read_texts(stream, texts, tail);
        assert(frames.drop_first() =~= texts.map_values(sent) + tail);
    }
}

/// Streamed or not, a client gets the same text: what it reads from the frames of a streamed
/// completion is what the turn would have been answered with.
pub proof fn law_streamed_completions_are_the_answer(
    stream: ChatStreamView,
    inputs: Seq<TurnInputView>,
)
    requires
        !stream.finished,
    ensures
        collection(Seq::empty(), inputs) matches CollectedView::Answered(Ok(answer)) ==> read_text(
            stream.forced,
            chat_frames(stream, inputs),
        ) == answer,
{
    law_inputs_are_texts_or_a_run(inputs);
    if exists|texts: Seq<Seq<char>>| inputs == #[trigger] deltas(texts) {
        let texts = choose|texts: Seq<Seq<char>>| inputs == #[trigger] deltas(texts);
        lemma_texts_are_pending(Seq::empty(), texts);
    } else {
        let (texts, end, rest) = choose|
            texts: Seq<Seq<char>>,
            end: TurnInputView,
            rest: Seq<TurnInputView>,
        | ends(end) && inputs == #[trigger] run(texts, end, rest);
        law_collected_answers(Seq::empty(), texts, end, rest);
        law_chat_stream_runs(stream, texts, end, rest);
        if end.progress() is Ended {
            let closing = stream.closing(end.progress()->Ended_0);
            assert forall|i: int| 0 <= i < closing.len() implies chunk_text(
                stream.forced,
                #[trigger] closing[i],
            ) is None by {
                law_closing_frames_carry_no_text(stream, end.progress()->Ended_0, i);
            }
            lemma_read_texts(stream, texts, closing);
            assert(Seq::empty() + concatenated(texts) =~= concatenated(texts));
        }
    }
}

proof fn lemma_texts_are_pending(text: Seq<char>, texts: Seq<Seq<char>>)
    ensures
        collection(text, deltas(texts)) is Pending,
    decreases texts.len(),
{
    if texts.len() > 0 {
        assert(deltas(texts).drop_first() =~= deltas(texts.drop_first()));
        lemma_texts_are_pending(text + texts.first(), texts.drop_first());
    }
}

/// The frames that a streamed response sends for these inputs, which were taken at these
/// times.
pub open spec fn responses_frames(
    stream: ResponsesStreamView,
    inputs: Seq<TurnInputView>,
    times: Seq<u64>,
) -> Seq<FrameView>
    decreases inputs.len(),
{
    if inputs.len() == 0 {
        Seq::empty()
    } else {
        stream.output(inputs.first(), times.first()).frames + responses_frames(
            stream.next(inputs.first(), times.first()),
            inputs.drop_first(),
            times.drop_first(),
        )
    }
}

/// How often a streamed response cancels its turn on these inputs.
pub open spec fn responses_cancellations(
    stream: ResponsesStreamView,
    inputs: Seq<TurnInputView>,
    times: Seq<u64>,
) -> nat
    decreases inputs.len(),
{
    if inputs.len() == 0 {
        0
    } else {
        responses_cancellations(
            stream.next(inputs.first(), times.first()),
            inputs.drop_first(),
            times.drop_first(),
        ) + if stream.output(inputs.first(), times.first()).interrupt {
            1nat
        } else {
            0nat
        }
    }
}

/// Whether a frame is an event under this number, whose type is its name.
pub open spec fn is_event_number(frame: FrameView, number: int) -> bool {
    frame matches FrameView::Event { name, data } && data.get("sequence_number"@) == Some(
        JsonView::integer(number),
    ) && data.get("type"@) == Some(JsonView::String(name))
}

proof fn lemma_event_number(name: Seq<char>, number: int, body: JsonView)
    ensures
        is_event_number(event_view(name, number, body), number),
{
    reveal_strlit("type");
    reveal_strlit("sequence_number");
    assert("type"@.len() == 4 && "sequence_number"@.len() == 15);
}

/// The events of a streamed response are numbered one after the other.
pub proof fn law_response_events_are_numbered(
    stream: ResponsesStreamView,
    inputs: Seq<TurnInputView>,
    times: Seq<u64>,
    i: int,
)
    requires
        0 <= i < responses_frames(stream, inputs, times).len(),
    ensures
        is_event_number(responses_frames(stream, inputs, times)[i], stream.sequence + 1 + i),
    decreases inputs.len(),
{
    let (input, now) = (inputs.first(), times.first());
    let frames = stream.output(input, now).frames;
    let next = stream.next(input, now);
    if i >= frames.len() {
        law_response_events_are_numbered(
            next,
            inputs.drop_first(),
            times.drop_first(),
            i - frames.len(),
        );
    } else {
        lemma_output_is_numbered(stream, input, now, i);
    }
}

proof fn lemma_output_is_numbered(stream: ResponsesStreamView, input: TurnInputView, now: u64, i: int)
    requires
        0 <= i < stream.output(input, now).frames.len(),
    ensures
        is_event_number(stream.output(input, now).frames[i], stream.sequence + 1 + i),
{
    match input.progress() {
        ProgressView::Text(text) => {
            lemma_event_number(
                "response.output_text.delta"@,
                stream.sequence + 1,
                place_view(
                    stream.message_id,
                    "delta"@,
                    JsonView::String(text),
                ),
            );
        },
        ProgressView::Ended(Some(failure)) => {
            lemma_event_number(
                "response.failed"@,
                stream.sequence + 1,
                stream.response(now, "failed"@, Some(failure)),
            );
        },
        ProgressView::Ended(None) => {
            lemma_event_number(
                "response.output_text.done"@,
                stream.sequence + 1,
                place_view(
                    stream.message_id,
                    "text"@,
                    JsonView::String(stream.text),
                ),
            );
            lemma_event_number(
                "response.content_part.done"@,
                stream.sequence + 2,
                place_view(
                    stream.message_id,
                    "part"@,
                    output_text_view(stream.text),
                ),
            );
            lemma_event_number(
                "response.output_item.done"@,
                stream.sequence + 3,
                item_place_view(
                    item_view(stream.message_id, stream.text, "completed"@),
                ),
            );
            lemma_event_number(
                "response.completed"@,
                stream.sequence + 4,
                stream.response(now, "completed"@, None),
            );
        },
        ProgressView::Abandoned => {},
    }
}

/// The events that open a streamed response have the first numbers.
pub proof fn law_opening_events_are_numbered(
    stream: ResponsesStreamView,
    created_at: u64,
    in_progress_at: u64,
    i: int,
)
    requires
        0 <= i < stream.opening(created_at, in_progress_at).len(),
    ensures
        is_event_number(stream.opening(created_at, in_progress_at)[i], 1 + i),
{
    lemma_event_number(
        "response.created"@,
        1,
        stream.response(created_at, "in_progress"@, None),
    );
    lemma_event_number(
        "response.in_progress"@,
        2,
        stream.response(in_progress_at, "in_progress"@, None),
    );
    lemma_event_number(
        "response.output_item.added"@,
        3,
        item_place_view(
            item_view(stream.message_id, ""@, "in_progress"@),
        ),
    );
    lemma_event_number(
        "response.content_part.added"@,
        4,
        place_view(
            stream.message_id,
            "part"@,
            output_text_view(""@),
        ),
    );
}

/// A streamed response sends nothing and cancels nothing once it is finished.
pub proof fn law_finished_responses_are_silent(
    stream: ResponsesStreamView,
    inputs: Seq<TurnInputView>,
    times: Seq<u64>,
)
    requires
        stream.finished,
    ensures
        responses_frames(stream, inputs, times) == Seq::<FrameView>::empty(),
        responses_cancellations(stream, inputs, times) == 0,
    decreases inputs.len(),
{
    if inputs.len() > 0 {
        law_finished_responses_are_silent(
            stream.next(inputs.first(), times.first()),
            inputs.drop_first(),
            times.drop_first(),
        );
    }
}

/// The events that carry these texts.
pub open spec fn delta_events(stream: ResponsesStreamView, texts: Seq<Seq<char>>) -> Seq<FrameView> {
    Seq::new(
        texts.len(),
        |i: int| (ResponsesStreamView { sequence: stream.sequence + i, ..stream }).delta(texts[i]),
    )
}

/// A streamed response after these texts.
pub open spec fn with_texts(stream: ResponsesStreamView, texts: Seq<Seq<char>>) -> ResponsesStreamView {
    ResponsesStreamView {
        text: stream.text + concatenated(texts),
        sequence: stream.sequence + texts.len(),
        ..stream
    }
}

/// A streamed response sends the texts of the turn in their order, an event each, and then
/// what closes it: the failure, or the events that repeat the whole text. It cancels the turn
/// once if the time is over or the client is gone, and never otherwise.
pub proof fn law_responses_stream_runs(
    stream: ResponsesStreamView,
    texts: Seq<Seq<char>>,
    end: TurnInputView,
    rest: Seq<TurnInputView>,
    times: Seq<u64>,
)
    requires
        !stream.finished,
        ends(end),
        times.len() == run(texts, end, rest).len(),
    ensures
        responses_frames(stream, run(texts, end, rest), times) == delta_events(stream, texts)
            + match end.progress() {
            ProgressView::Ended(None) => with_texts(stream, texts).completed(
                times[texts.len() as int],
            ),
            ProgressView::Ended(Some(failure)) => seq![
                with_texts(stream, texts).failed(failure, times[texts.len() as int]),
            ],
            _ => Seq::empty(),
        },
        responses_cancellations(stream, run(texts, end, rest), times) == if end.cancels() {
            1nat
        } else {
            0nat
        },
    decreases texts.len(),
{
    lemma_run_tail(texts, end, rest);
    let inputs = run(texts, end, rest);
    let next = stream.next(inputs.first(), times.first());
    if texts.len() > 0 {
        let tail = texts.drop_first();
        law_responses_stream_runs(next, tail, end, rest, times.drop_first());
        assert(stream.text + texts.first() + concatenated(tail) =~= stream.text + concatenated(texts));
        assert(with_texts(next, tail) == with_texts(stream, texts));
        assert(times.drop_first()[tail.len() as int] == times[texts.len() as int]);
        assert(delta_events(stream, texts) =~= seq![stream.delta(texts.first())] + delta_events(
            next,
            tail,
        )) by {
            assert forall|i: int| 0 <= i < texts.len() implies #[trigger] delta_events(stream, texts)[i] == (seq![
                stream.delta(texts.first()),
            ] + delta_events(next, tail))[i] by {
                if i > 0 {
                    assert(texts[i] == tail[i - 1]);
                }
            }
        }
        assert(responses_frames(stream, inputs, times) =~= delta_events(stream, texts)
            + match end.progress() {
            ProgressView::Ended(None) => with_texts(stream, texts).completed(
                times[texts.len() as int],
            ),
            ProgressView::Ended(Some(failure)) => seq![
                with_texts(stream, texts).failed(failure, times[texts.len() as int]),
            ],
            _ => Seq::empty(),
        });
    } else {
        law_finished_responses_are_silent(next, rest, times.drop_first());
        assert(stream.text + concatenated(texts) =~= stream.text);
        assert(with_texts(stream, texts) == stream);
        assert(delta_events(stream, texts) =~= Seq::empty());
        assert(responses_frames(stream, inputs, times) =~= stream.output(end, times.first()).frames);
    }
}

/// What a client reads from an event of a streamed response is the text that it was sent for.
pub proof fn law_delta_events_carry_the_text(stream: ResponsesStreamView, text: Seq<char>)
    ensures
        stream.delta(text) matches FrameView::Event { data, .. } && data.text_at("delta"@) == Some(text),
{
    reveal_strlit("delta");
    reveal_strlit("type");
    reveal_strlit("sequence_number");
    assert("delta"@.len() == 5 && "type"@.len() == 4 && "sequence_number"@.len() == 15);
    lemma_object_field(
        seq![
            ("item_id"@, JsonView::String(stream.message_id)),
            ("output_index"@, JsonView::integer(0)),
            ("content_index"@, JsonView::integer(0)),
            ("delta"@, JsonView::String(text)),
        ],
        3,
    );
}

/// Streamed or not, a client gets the same text: the last event of a streamed response holds
/// the response with what the turn would have been answered with.
pub proof fn law_streamed_responses_are_the_answer(
    stream: ResponsesStreamView,
    inputs: Seq<TurnInputView>,
    times: Seq<u64>,
)
    requires
        !stream.finished,
        stream.text.len() == 0,
        times.len() == inputs.len(),
    ensures
        collection(Seq::empty(), inputs) matches CollectedView::Answered(Ok(answer)) ==> {
            let frames = responses_frames(stream, inputs, times);
            let done = ResponsesStreamView { text: answer, ..stream };
            frames.len() > 0 && exists|now: u64|
                frames.last() == #[trigger] event_view(
                    "response.completed"@,
                    stream.sequence + frames.len(),
                    done.response(now, "completed"@, None),
                )
        },
{
    law_inputs_are_texts_or_a_run(inputs);
    if exists|texts: Seq<Seq<char>>| inputs == #[trigger] deltas(texts) {
        let texts = choose|texts: Seq<Seq<char>>| inputs == #[trigger] deltas(texts);
        lemma_texts_are_pending(Seq::empty(), texts);
    } else {
        let (texts, end, rest) = choose|
            texts: Seq<Seq<char>>,
            end: TurnInputView,
            rest: Seq<TurnInputView>,
        | ends(end) && inputs == #[trigger] run(texts, end, rest);
        law_collected_answers(Seq::empty(), texts, end, rest);
        law_responses_stream_runs(stream, texts, end, rest, times);
        assert(stream.text + concatenated(texts) =~= concatenated(texts));
        assert(Seq::empty() + concatenated(texts) =~= concatenated(texts));
        if end.progress() == ProgressView::Ended(None) {
            let now = times[texts.len() as int];
            let done = ResponsesStreamView { text: concatenated(texts), ..stream };
            let frames = responses_frames(stream, inputs, times);
            assert(with_texts(stream, texts).response(now, "completed"@, None) == done.response(
                now,
                "completed"@,
                None,
            ));
            assert(frames.last() == event_view(
                "response.completed"@,
                stream.sequence + frames.len(),
                done.response(now, "completed"@, None),
            ));
        }
    }
}

} // verus!
