//! That the contents of values leave nothing out.
use crate::api::{TurnPlan, body_view, plan_view};
use crate::app_server::{
    Call, Received, ReceivedView, TurnStart, TurnStartView, TurnStep, TurnStepView,
};
use crate::auth::bytes_view;
use crate::chat::forced_view;
use crate::error::{ApiError, AppServerError, AppServerErrorView, outcome_view};
use crate::frame::{Frame, FrameView, StreamOutput, frames_view};
use crate::json::{
    Json, JsonView, entries_view, fields_view, items_view, map_of, number_view, option_view,
    owned_view, text_view,
};
use crate::protocol::event_view;
use crate::translate::{ChatMessage, ForcedTool, string_view, tool_view};
use crate::turn::{
    Collected, CollectedView, Progress, ProgressView, TurnEvent, TurnEventView, TurnInput,
    TurnInputView,
};
use vstd::prelude::*;

verus! {

/// The content of an optional value is that of the value, and there exactly where the value
/// is.
pub proof fn law_optional_contents(
    string: String,
    text: &str,
    bytes: &[u8],
    json: Json,
    tool: ForcedTool,
    event: TurnEvent,
)
    ensures
        string_view(Some(string)) == Some(string@),
        string_view(None) is None,
        text_view(Some(text)) == Some(text@),
        text_view(None) is None,
        bytes_view(Some(bytes)) == Some(bytes@),
        bytes_view(None) is None,
        owned_view(Some(json)) == Some(json@),
        owned_view(None) is None,
        option_view(Some(&json)) == Some(json@),
        option_view(None) is None,
        tool_view(Some(tool)) == Some(tool@),
        tool_view(None) is None,
        forced_view(Some(&tool)) == Some(tool@),
        forced_view(None) is None,
        event_view(Some(event)) == Some(event@),
        event_view(None) is None,
{
}

/// The content of an outcome is that of the result or that of the error.
pub proof fn law_contents_of_outcomes(
    json: Json,
    failure: AppServerError,
    error: ApiError,
    plan: TurnPlan,
)
    ensures
        outcome_view(Ok(json)) == Ok::<JsonView, AppServerErrorView>(json@),
        outcome_view(Err(failure)) == Err::<JsonView, AppServerErrorView>(failure@),
        body_view(Ok(json)) matches Ok(v) && v == json@,
        body_view(Err(error)) matches Err(e) && e == error@,
        plan_view(Ok(plan)) matches Ok(p) && p == plan@,
        plan_view(Err(error)) matches Err(e) && e == error@,
{
}

/// The content of a list is that of its items, in their order.
pub proof fn law_contents_of_lists(
    items: Seq<Json>,
    entries: Seq<(String, Json)>,
    fields: Seq<(&str, Json)>,
    frames: Seq<Frame>,
    i: int,
)
    ensures
        items_view(items).len() == items.len(),
        0 <= i < items.len() ==> items_view(items)[i] == items[i]@,
        entries_view(entries).len() == entries.len(),
        0 <= i < entries.len() ==> entries_view(entries)[i] == (entries[i].0@, entries[i].1@),
        fields_view(fields).len() == fields.len(),
        0 <= i < fields.len() ==> fields_view(fields)[i] == (fields[i].0@, fields[i].1@),
        frames_view(frames).len() == frames.len(),
        0 <= i < frames.len() ==> frames_view(frames)[i] == frames[i]@,
{
}

/// The content of a JSON value is of its kind and holds what it holds; the later of two
/// entries under one key counts.
pub proof fn law_contents_of_values(
    b: bool,
    n: serde_json::Number,
    s: String,
    items: Vec<Json>,
    entries: Vec<(String, Json)>,
    more: Seq<(Seq<char>, JsonView)>,
    entry: (Seq<char>, JsonView),
)
    ensures
        Json::Null@ == JsonView::Null,
        Json::Bool(b)@ == JsonView::Bool(b),
        Json::Number(n)@ == JsonView::Number(number_view(n)),
        Json::String(s)@ == JsonView::String(s@),
        Json::Array(items)@ == JsonView::Array(items_view(items@)),
        Json::Object(entries)@ == JsonView::Object(map_of(entries_view(entries@))),
        map_of(Seq::empty()) == Map::<Seq<char>, JsonView>::empty(),
        map_of(more.push(entry)) == map_of(more).insert(entry.0, entry.1),
{
    assert(more.push(entry).drop_last() =~= more);
}

/// The content of what happens to a turn, and of what that means.
pub proof fn law_contents_of_turns(
    text: String,
    status: String,
    error: Option<String>,
    event: TurnEvent,
    refusal: ApiError,
)
    ensures
        TurnEvent::Delta(text)@ == TurnEventView::Delta(text@),
        (TurnEvent::Completed { status, error })@ == (TurnEventView::Completed {
            status: status@,
            error: string_view(error),
        }),
        TurnEvent::Error(text)@ == TurnEventView::Error(text@),
        TurnInput::Event(event)@ == TurnInputView::Event(event@),
        TurnInput::Closed@ == TurnInputView::Closed,
        TurnInput::TimedOut@ == TurnInputView::TimedOut,
        TurnInput::Disconnected@ == TurnInputView::Disconnected,
        Progress::Text(text)@ == ProgressView::Text(text@),
        Progress::Ended(error)@ == ProgressView::Ended(string_view(error)),
        Progress::Abandoned@ == ProgressView::Abandoned,
        Collected::Pending@ == CollectedView::Pending,
        Collected::Answered(Ok(text))@ == CollectedView::Answered(Ok(text@)),
        Collected::Answered(Err(refusal))@ == CollectedView::Answered(Err(refusal@)),
        Collected::Abandoned@ == CollectedView::Abandoned,
{
}

/// The content of what is sent to clients.
pub proof fn law_contents_of_answers(
    json: Json,
    name: &'static str,
    output: StreamOutput,
    refusal: ApiError,
    plan: TurnPlan,
)
    ensures
        Frame::Data(json)@ == FrameView::Data(json@),
        (Frame::Event { name, data: json })@ == (FrameView::Event { name: name@, data: json@ }),
        Frame::Done@ == FrameView::Done,
        output@.interrupt == output.interrupt,
        output@.frames == frames_view(output.frames@),
        output@.finished == output.finished,
        refusal@.status == refusal.status,
        refusal@.message == refusal.message@,
        refusal@.code == refusal.code@,
        plan@.prompt == plan.prompt@,
        plan@.output_schema == owned_view(plan.output_schema),
        plan@.forced == tool_view(plan.forced),
{
}

/// The content of requests.
pub proof fn law_contents_of_requests(message: ChatMessage, tool: ForcedTool)
    ensures
        message@.role == message.role@,
        message@.content == owned_view(message.content),
        message@.tool_calls == items_view(message.tool_calls@),
        message@.tool_call_id == string_view(message.tool_call_id),
        tool@.name == tool.name@,
        tool@.schema == tool.schema@,
{
}

/// The content of what passes between the gateway and the app-server.
pub proof fn law_contents_of_calls<P, T>(
    call: Call,
    answer: Json,
    reply: P,
    outcome: Result<Json, AppServerError>,
    text: String,
    event: TurnEvent,
    last: bool,
    output_schema: Option<Json>,
    events: T,
    start: TurnStart<T>,
    turn_id: String,
    failure: AppServerError,
)
    ensures
        call@.method == call.method@,
        call@.params == call.params@,
        Received::<P>::Malformed@ == ReceivedView::<P>::Malformed,
        Received::<P>::Ignored@ == ReceivedView::<P>::Ignored,
        Received::<P>::Answer(answer)@ == ReceivedView::<P>::Answer(answer@),
        Received::Resolve(reply, outcome)@ == ReceivedView::Resolve(reply, outcome_view(outcome)),
        (Received::<P>::Deliver { thread_id: text, event, last })@ == (ReceivedView::<P>::Deliver {
            thread_id: text@,
            event: event@,
            last,
        }),
        (TurnStart::Thread { prompt: text, output_schema, events })@ == (TurnStartView::Thread {
            prompt: text@,
            output_schema: owned_view(output_schema),
            events,
        }),
        (TurnStart::<T>::Turn { thread_id: text })@ == (TurnStartView::<T>::Turn {
            thread_id: text@,
        }),
        TurnStep::Call(start, call)@ == TurnStepView::Call(start@, call@),
        (TurnStep::<T>::Started { thread_id: text, turn_id })@ == (TurnStepView::<T>::Started {
            thread_id: text@,
            turn_id: turn_id@,
        }),
        TurnStep::<T>::Failed(failure)@ == TurnStepView::<T>::Failed(failure@),
        AppServerError::Spawn(text)@ == AppServerErrorView::Spawn(text@),
        AppServerError::Closed@ == AppServerErrorView::Closed,
        AppServerError::Rpc(text)@ == AppServerErrorView::Rpc(text@),
        AppServerError::Protocol(text)@ == AppServerErrorView::Protocol(text@),
{
}

} // verus!
