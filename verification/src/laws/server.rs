//! What passes between the gateway and the app-server.
use crate::app_server::{
    AppServerView, ReceivedView, TurnStartView, TurnStepView, all_failed, awaited_outcome,
    is_reply_to,
};
use crate::chat::ChatStreamView;
use crate::codec::{json_parsed, json_text};
use crate::config::{Config, Sandbox};
use crate::error::AppServerErrorView;
use crate::fields::{
    data_of, fields_are, group_fields, has_integer, has_null, has_text, is_named, last_under,
    lemma_names, only_item,
};
use crate::json::JsonView;
use crate::protocol::{
    answer_view, initialize_view, interrupt_view, notification_view, question_id, questions_of,
    reply_outcome, request_view, thread_start_view,
};
use crate::responses::ResponsesStreamView;
use crate::table::{are_values, are_values_under};
use crate::turn::{
    CollectedView, ProgressView, TurnEvent, TurnEventView, TurnInputView, collected_outcome,
};
use vstd::prelude::*;

verus! {

broadcast use group_fields;

/// A request, a notification and the introduction are written out in full.
pub proof fn law_messages(id: u64, method: Seq<char>, params: JsonView, version: Seq<char>)
    ensures
        fields_are(request_view(id, method, params), set!["id"@, "method"@, "params"@]),
        has_integer(request_view(id, method, params), "id"@, id as int),
        has_text(request_view(id, method, params), "method"@, method),
        request_view(id, method, params).get("params"@) == Some(params),
        fields_are(notification_view(method, params), set!["method"@, "params"@]),
        has_text(notification_view(method, params), "method"@, method),
        notification_view(method, params).get("params"@) == Some(params),
        fields_are(initialize_view(version), set!["clientInfo"@, "capabilities"@]),
        initialize_view(version).get("clientInfo"@) matches Some(info) && fields_are(
            info,
            set!["name"@, "version"@],
        ) && has_text(info, "name"@, "codex-responses-bridge"@) && has_text(
            info,
            "version"@,
            version,
        ),
        initialize_view(version).get("capabilities"@) matches Some(capabilities) && fields_are(
            capabilities,
            set!["experimentalApi"@],
        ) && capabilities.get("experimentalApi"@) == Some(JsonView::Bool(false)),
{
    reveal_with_fuel(last_under, 6);
    lemma_names();
}

/// A thread is set up by the configuration alone: in its directory, without a trace, without
/// approvals, in its sandbox, and with its model where it names one.
pub proof fn law_threads(config: Config)
    ensures
        ({
            let params = thread_start_view(config);
            &&& match config.cwd {
                Some(dir) => has_text(params, "cwd"@, dir.path@),
                None => has_null(params, "cwd"@),
            }
            &&& params.get("ephemeral"@) == Some(JsonView::Bool(true))
            &&& has_text(params, "approvalPolicy"@, "never"@)
            &&& has_text(
                params,
                "sandbox"@,
                match config.sandbox {
                    Sandbox::ReadOnly => "read-only"@,
                    Sandbox::WorkspaceWrite => "workspace-write"@,
                    Sandbox::DangerFullAccess => "danger-full-access"@,
                },
            )
            &&& match config.codex_model {
                Some(model) => has_text(params, "model"@, model@) && fields_are(
                    params,
                    set!["cwd"@, "ephemeral"@, "approvalPolicy"@, "sandbox"@, "model"@],
                ),
                None => fields_are(
                    params,
                    set!["cwd"@, "ephemeral"@, "approvalPolicy"@, "sandbox"@],
                ),
            }
        }),
{
    reveal_with_fuel(last_under, 6);
    lemma_names();
}

/// Whether a value asks for a turn on a thread with this prompt, whatever the schema of the
/// output is, and with that schema exactly where there is one.
pub open spec fn asks_for_turn(
    params: JsonView,
    thread_id: Seq<char>,
    prompt: Seq<char>,
    output_schema: Option<JsonView>,
) -> bool {
    &&& has_text(params, "threadId"@, thread_id)
    &&& only_item(params, "input"@) matches Some(input) && fields_are(input, set!["type"@, "text"@])
        && has_text(input, "type"@, "text"@) && has_text(input, "text"@, prompt)
    &&& params.get("outputSchema"@) == output_schema
    &&& fields_are(
        params,
        if output_schema is Some {
            set!["threadId"@, "input"@, "outputSchema"@]
        } else {
            set!["threadId"@, "input"@]
        },
    )
}

/// The call that follows the reply to `thread/start` asks for a turn on the thread that the
/// reply names, with the prompt and the schema that the turn was started with.
pub proof fn law_turns_are_asked_for<P, T>(
    server: AppServerView<P, T>,
    prompt: Seq<char>,
    output_schema: Option<JsonView>,
    events: T,
    reply: JsonView,
    thread: JsonView,
    thread_id: Seq<char>,
)
    requires
        reply.get("thread"@) == Some(thread),
        has_text(thread, "id"@, thread_id),
    ensures
        ({
            let start = TurnStartView::Thread { prompt, output_schema, events };
            let after = server.after_outcome(start, Ok(reply));
            &&& server.resumed(start, Ok(reply)) matches TurnStepView::Call(next, call) && next
                == (TurnStartView::<T>::Turn { thread_id }) && call.method == "turn/start"@
                && asks_for_turn(call.params, thread_id, prompt, output_schema)
            &&& after.turns.contains_key(thread_id)
            &&& after.turns[thread_id] == events
            &&& after.turns.remove(thread_id) == server.turns.remove(thread_id)
            &&& after.pending == server.pending
            &&& after.next_id == server.next_id
            &&& after.config == server.config
        }),
{
    reveal_with_fuel(last_under, 6);
    lemma_names();
    assert(server.turns.insert(thread_id, events).remove(thread_id) =~= server.turns.remove(
        thread_id,
    ));
}

/// The start of a turn fails where a call fails, with its error, and where a reply names no
/// thread or no turn, which is said. It succeeds where both are named, under these names. Only
/// the refusal of a turn ends what the thread's name began.
pub proof fn law_starts_of_turns<P, T>(
    server: AppServerView<P, T>,
    start: TurnStartView<T>,
    error: AppServerErrorView,
    reply: JsonView,
    thread_id: Seq<char>,
)
    ensures
        server.resumed(start, Err(error)) == TurnStepView::<T>::Failed(error),
        start is Thread ==> server.after_outcome(start, Err(error)) == server,
        start is Thread && !(reply.get("thread"@) matches Some(thread) && thread.get("id"@) matches Some(
            JsonView::String(_),
        )) ==> server.resumed(start, Ok(reply)) == TurnStepView::<T>::Failed(
            AppServerErrorView::Protocol("thread/start omitted thread.id"@),
        ) && server.after_outcome(start, Ok(reply)) == server,
        start == (TurnStartView::<T>::Turn { thread_id }) ==> {
            let after = server.after_outcome(start, Err(error));
            &&& !after.turns.contains_key(thread_id)
            &&& after.turns == server.turns.remove(thread_id)
            &&& after.pending == server.pending
            &&& server.after_outcome(start, Ok(reply)) == server
            &&& reply.get("turn"@) matches Some(turn) ==> (turn.get("id"@) matches Some(
                JsonView::String(turn_id),
            ) ==> server.resumed(start, Ok(reply)) == (TurnStepView::<T>::Started {
                thread_id,
                turn_id,
            }))
            &&& !(reply.get("turn"@) matches Some(turn) && turn.get("id"@) matches Some(
                JsonView::String(_),
            )) ==> server.resumed(start, Ok(reply)) == TurnStepView::<T>::Failed(
                AppServerErrorView::Protocol("turn/start omitted turn.id"@),
            )
        },
{
}

/// The call that cancels a turn names it and its thread.
pub proof fn law_cancellations(thread_id: Seq<char>, turn_id: Seq<char>)
    ensures
        fields_are(interrupt_view(thread_id, turn_id), set!["threadId"@, "turnId"@]),
        has_text(interrupt_view(thread_id, turn_id), "threadId"@, thread_id),
        has_text(interrupt_view(thread_id, turn_id), "turnId"@, turn_id),
{
    reveal_with_fuel(last_under, 6);
    lemma_names();
}

/// Whether a message is a notification of this method, with these parameters, for a thread on
/// which a turn runs.
pub open spec fn notifies<P, T>(
    server: AppServerView<P, T>,
    message: JsonView,
    method: Seq<char>,
    params: JsonView,
    thread_id: Seq<char>,
) -> bool {
    &&& message.get("id"@) is None
    &&& has_text(message, "method"@, method)
    &&& message.get("params"@) == Some(params)
    &&& has_text(params, "threadId"@, thread_id)
    &&& server.turns.contains_key(thread_id)
}

/// A piece of text is delivered as it is, where it is text.
pub proof fn law_text_notifications<P, T>(
    server: AppServerView<P, T>,
    message: JsonView,
    params: JsonView,
    thread_id: Seq<char>,
    now: u64,
)
    requires
        notifies(server, message, "item/agentMessage/delta"@, params, thread_id),
    ensures
        params.get("delta"@) matches Some(JsonView::String(text)) ==> server.dispatched(message, now)
            == (ReceivedView::<P>::Deliver {
            thread_id,
            event: TurnEventView::Delta(text),
            last: false,
        }),
        !(params.get("delta"@) matches Some(JsonView::String(_))) ==> server.dispatched(
            message,
            now,
        ) is Ignored,
{
}

/// An error ends its turn, with what is said of it in JSON, unless it will be tried again.
pub proof fn law_error_notifications<P, T>(
    server: AppServerView<P, T>,
    message: JsonView,
    params: JsonView,
    thread_id: Seq<char>,
    now: u64,
)
    requires
        notifies(server, message, "error"@, params, thread_id),
    ensures
        params.get("willRetry"@) == Some(JsonView::Bool(true)) ==> server.dispatched(message, now) is Ignored,
        params.get("willRetry"@) != Some(JsonView::Bool(true)) ==> server.dispatched(message, now)
            == (ReceivedView::<P>::Deliver {
            thread_id,
            event: TurnEventView::Error(
                match params.get("error"@) {
                    Some(error) => json_text(error),
                    None => "Codex turn failed"@,
                },
            ),
            last: true,
        }),
{
    lemma_names();
}

/// Whether the parameters of `turn/completed` state this status: the text that they hold, or
/// failure where they hold none.
pub open spec fn states(params: JsonView, status: Seq<char>) -> bool {
    if params.get("turn"@) matches Some(turn) && turn.get("status"@) matches Some(JsonView::String(_)) {
        has_text(params.get("turn"@)->0, "status"@, status)
    } else {
        status == "failed"@
    }
}

/// The completion of a turn ends it with the status that is stated, and with the error that
/// is stated, in JSON, if it is more than null.
pub proof fn law_completion_notifications<P, T>(
    server: AppServerView<P, T>,
    message: JsonView,
    params: JsonView,
    thread_id: Seq<char>,
    now: u64,
)
    requires
        notifies(server, message, "turn/completed"@, params, thread_id),
    ensures
        server.dispatched(message, now) matches ReceivedView::Deliver {
            thread_id: thread,
            event: TurnEventView::Completed { status, error },
            last,
        } && thread == thread_id && last && states(params, status) && error == (
        if params.get("turn"@) matches Some(turn) && turn.get("error"@) matches Some(stated)
            && stated != JsonView::Null {
            Some(json_text(params.get("turn"@)->0.get("error"@)->0))
        } else {
            None
        }),
{
    lemma_names();
}

/// Nothing else is an event: a notification of another method, without a thread or for a
/// thread without a turn is for nobody.
pub proof fn law_other_notifications<P, T>(
    server: AppServerView<P, T>,
    message: JsonView,
    now: u64,
)
    requires
        message.get("id"@) is None,
    ensures
        !has_text(message, "method"@, "item/agentMessage/delta"@) && !has_text(
            message,
            "method"@,
            "error"@,
        ) && !has_text(message, "method"@, "turn/completed"@) ==> server.dispatched(message, now) is Ignored,
        !(message.get("params"@) matches Some(params) && params.get("threadId"@) matches Some(
            JsonView::String(thread_id),
        ) && server.turns.contains_key(thread_id)) ==> server.dispatched(message, now) is Ignored,
{
    lemma_names();
    reveal_strlit("");
    assert(""@.len() == 0);
}

/// A turn is answered as a success only where the app-server says of it that it completed:
/// after any texts, the answer to a completion is the text exactly where the stated status is
/// that of success, and so for both kinds of streams.
pub proof fn law_success_is_stated<P, T>(
    server: AppServerView<P, T>,
    message: JsonView,
    params: JsonView,
    thread_id: Seq<char>,
    now: u64,
    text: Seq<char>,
    chat: ChatStreamView,
    responses: ResponsesStreamView,
)
    requires
        notifies(server, message, "turn/completed"@, params, thread_id),
        !chat.finished,
        !responses.finished,
    ensures
        ({
            let success = (params.get("turn"@) matches Some(turn) && has_text(
                turn,
                "status"@,
                "completed"@,
            ));
            let event = server.dispatched(message, now)->event;
            let input = TurnInputView::Event(event);
            &&& collected_outcome(text, input) == CollectedView::Answered(Ok(text)) <==> success
            &&& (collected_outcome(text, input) matches CollectedView::Answered(Ok(_))) <==> success
            &&& data_of(chat.output(input).frames[0]).get("error"@) is None <==> success
            &&& is_named(responses.output(input, now).frames.last(), "response.completed"@)
                <==> success
            &&& chat.output(input).finished && responses.output(input, now).finished
        }),
{
    reveal_with_fuel(last_under, 7);
    lemma_names();
    law_completion_notifications(server, message, params, thread_id, now);
    let event = server.dispatched(message, now)->event;
    let frames = chat.output(TurnInputView::Event(event)).frames;
    match TurnInputView::Event(event).progress() {
        ProgressView::Ended(failure) => {
            assert(frames == chat.closing(failure));
        },
        _ => {},
    }
}

/// The outcome of a reply is its error, in JSON, where it has one; else its result, and null
/// where it has neither. A call comes to the outcome of its reply, and without a reply to that
/// of a closed connection.
pub proof fn law_outcomes(message: JsonView)
    ensures
        message.get("error"@) matches Some(error) ==> reply_outcome(message) == Err::<
            JsonView,
            AppServerErrorView,
        >(AppServerErrorView::Rpc(json_text(error))),
        message.get("error"@) is None ==> (message.get("result"@) matches Some(result)
            ==> reply_outcome(message) == Ok::<JsonView, AppServerErrorView>(result)),
        message.get("error"@) is None && message.get("result"@) is None ==> reply_outcome(message)
            == Ok::<JsonView, AppServerErrorView>(JsonView::Null),
        awaited_outcome(Some(reply_outcome(message))) == reply_outcome(message),
        awaited_outcome(None) == Err::<JsonView, AppServerErrorView>(AppServerErrorView::Closed),
{
}

/// Whether a message has this method; one without a text for it has the empty method.
pub open spec fn has_method(message: JsonView, method: Seq<char>) -> bool {
    if message.get("method"@) matches Some(JsonView::String(_)) {
        has_text(message, "method"@, method)
    } else {
        method == ""@
    }
}

/// Whether an answer is of success, with this one field in its result.
pub open spec fn results_in(answer: JsonView, id: JsonView, field: Seq<char>, value: JsonView) -> bool {
    &&& fields_are(answer, set!["id"@, "result"@])
    &&& answer.get("id"@) == Some(id)
    &&& answer.get("result"@) matches Some(result) && fields_are(result, set![field]) && result.get(
        field,
    ) == Some(value)
}

/// What each request of the app-server is answered: approvals are declined or denied, the
/// clock is told, and any other method but that of questions is refused as unsupported.
pub proof fn law_answers(id: JsonView, message: JsonView, now: u64, method: Seq<char>)
    requires
        has_method(message, method),
    ensures
        ({
            let answer = answer_view(id, message, now);
            &&& method == "item/commandExecution/requestApproval"@ || method
                == "item/fileChange/requestApproval"@ ==> results_in(
                answer,
                id,
                "decision"@,
                JsonView::String("decline"@),
            )
            &&& method == "currentTime/read"@ ==> results_in(
                answer,
                id,
                "currentTimeAt"@,
                JsonView::integer(now as int),
            )
            &&& method == "applyPatchApproval"@ || method == "execCommandApproval"@ ==> (answer.get(
                "result"@,
            ) matches Some(result) && result.get("decision"@) matches Some(decision) && results_in(
                answer,
                id,
                "decision"@,
                decision,
            ) && fields_are(decision, set!["denied"@]) && (decision.get("denied"@) matches Some(denied)
                && fields_are(denied, set!["rejection"@]) && has_text(
                denied,
                "rejection"@,
                "bridge runs non-interactively"@,
            )))
            &&& method != "item/commandExecution/requestApproval"@ && method
                != "item/fileChange/requestApproval"@ && method != "currentTime/read"@ && method
                != "applyPatchApproval"@ && method != "execCommandApproval"@ && method
                != "item/tool/requestUserInput"@ ==> fields_are(answer, set!["id"@, "error"@])
                && answer.get("id"@) == Some(id) && (answer.get("error"@) matches Some(error)
                && fields_are(error, set!["code"@, "message"@]) && has_integer(
                error,
                "code"@,
                -32601,
            ) && has_text(error, "message"@, "unsupported server request: "@ + method))
        }),
{
    reveal_with_fuel(last_under, 6);
    lemma_names();
}

/// The questions that are answered are those in the list under `questions`, of the parameters.
pub proof fn law_questions(id: JsonView, message: JsonView, now: u64, question: Seq<char>)
    requires
        has_method(message, "item/tool/requestUserInput"@),
    ensures
        ({
            let answer = answer_view(id, message, now);
            let asked = message.get("params"@) matches Some(params) && params.get("questions"@) matches Some(
                JsonView::Array(questions),
            ) && exists|i: int|
                0 <= i < questions.len() && has_text(#[trigger] questions[i], "id"@, question);
            answer.get("result"@) matches Some(result) && result.get("answers"@) matches Some(answers)
                && results_in(answer, id, "answers"@, answers) && answers is Object && (answers.get(
                question,
            ) is Some <==> asked) && (answers.get(question) matches Some(empty) ==> fields_are(
                empty,
                set!["answers"@],
            ) && empty.get("answers"@) == Some(JsonView::Array(Seq::empty())))
        }),
{
    reveal_with_fuel(last_under, 6);
    lemma_names();
    let questions = questions_of(message);
    if exists|i: int|
        0 <= i < questions.len() && has_text(#[trigger] questions[i], "id"@, question) {
        let i = choose|i: int|
            0 <= i < questions.len() && has_text(#[trigger] questions[i], "id"@, question);
        assert(question_id(questions[i]) == Some(question));
    }
    if exists|i: int|
        0 <= i < questions.len() && question_id(#[trigger] questions[i]) == Some(
            question,
        ) {
        let i = choose|i: int|
            0 <= i < questions.len() && question_id(#[trigger] questions[i]) == Some(
                question,
            );
        assert(has_text(questions[i], "id"@, question));
    }
}

/// How a line is taken: one that is no JSON as malformed; a message with an identifier and a
/// method as a request, under that identifier; one with the identifier of an open request and
/// no method as the reply to it; one with another identifier and no method as nothing; and
/// none of these changes anything but the open request.
pub proof fn law_lines<P, T>(server: AppServerView<P, T>, line: Seq<char>, now: u64, id: JsonView)
    ensures
        json_parsed(line) is None ==> server.received(line, now) is Malformed && server.after_line(
            line,
        ) == server,
        json_parsed(line) matches Some(message) ==> {
            &&& message.get("id"@) == Some(id) && message.get("method"@) is Some
                ==> server.received(line, now) == ReceivedView::<P>::Answer(
                answer_view(id, message, now),
            ) && server.after_line(line) == server
            &&& message.get("id"@) is None ==> server.after_line(line) == server
            &&& message.get("id"@) == Some(id) && message.get("method"@) is None && (forall|n: u64|
                id != #[trigger] JsonView::integer(n as int)) ==> server.received(line, now) is Ignored
                && server.after_line(line) == server
            &&& forall|n: u64|
                #[trigger] is_reply_to(message, n) ==> server.after_line(line).pending
                    == server.pending.remove(n) && server.after_line(line).turns == server.turns && (
                server.pending.contains_key(n) ==> server.received(line, now)
                    == ReceivedView::Resolve(server.pending[n], reply_outcome(message))) && (
                !server.pending.contains_key(n) ==> server.received(line, now) is Ignored)
        },
{
    lemma_names();
    reveal_strlit("");
    assert(""@.len() == 0);
    if id.as_u64() is Some {
        assert(id == JsonView::integer(id.as_u64()->0 as int));
    }
}

/// Every turn that runs when the connection is closed is told so.
pub proof fn law_closing_reaches_every_turn<T>(
    events: Seq<(T, TurnEvent)>,
    turns: Map<Seq<char>, T>,
    thread_id: Seq<char>,
)
    requires
        all_failed(events, turns),
        turns.contains_key(thread_id),
    ensures
        exists|i: int|
            0 <= i < events.len() && (#[trigger] events[i]).0 == turns[thread_id] && events[i].1@
                == TurnEventView::Error("Codex app-server closed"@),
{
    let values = events.map_values(|event: (T, TurnEvent)| event.0);
    assert(are_values(values, turns));
    let threads = choose|threads: Seq<Seq<char>>| #[trigger] are_values_under(values, threads, turns);
    assert(threads.to_set().contains(thread_id));
    let i = choose|i: int| 0 <= i < threads.len() && threads[i] == thread_id;
    assert(values[i] == turns[threads[i]]);
    assert(events[i].0 == values[i]);
}

/// What is kept of requests and turns: a request is put under the next identifier, and that
/// moves on by one; what is given up or ends is gone; nothing else changes; and nothing is
/// left of a closed connection.
pub proof fn law_bookkeeping<P, T>(
    server: AppServerView<P, T>,
    reply: P,
    events: T,
    id: u64,
    thread_id: Seq<char>,
)
    ensures
        server.requested(reply).pending == server.pending.insert(server.next_id, reply),
        server.requested(reply).next_id == if server.next_id == u64::MAX {
            0
        } else {
            server.next_id + 1
        },
        server.requested(reply).turns == server.turns,
        server.requested(reply).config == server.config,
        server.without_request(id).pending == server.pending.remove(id),
        server.without_request(id).next_id == server.next_id,
        server.without_request(id).turns == server.turns,
        server.without_request(id).config == server.config,
        server.with_turn(thread_id, events).turns == server.turns.insert(thread_id, events),
        server.with_turn(thread_id, events).pending == server.pending,
        server.without_turn(thread_id).turns == server.turns.remove(thread_id),
        server.without_turn(thread_id).pending == server.pending,
        server.without_turn(thread_id).next_id == server.next_id,
        server.without_turn(thread_id).config == server.config,
        server.closed().pending == Map::<u64, P>::empty(),
        server.closed().turns == Map::<Seq<char>, T>::empty(),
        server.closed().next_id == server.next_id,
        server.closed().config == server.config,
{
}

} // verus!
