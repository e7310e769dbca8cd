//! The gateway's end of the connection to the Codex app-server.
use crate::codec::{json_parsed, parse};
use crate::config::Config;
use crate::error::{AppServerError, AppServerErrorView, outcome_view};
use crate::ident::{is_clock_reading, now_seconds};
use crate::json::{Json, JsonView, owned_view};
use crate::protocol::{
    answer_server_request_at, answer_view, event_of, initialized_message, interrupt_params,
    interrupt_view, law_answers_carry_the_identifier, law_requests_hold_their_parts, method,
    method_of, notification_event, notification_view, reply_outcome, reply_result, request_message,
    request_view, thread_start_params, thread_start_view, turn_start_params, turn_start_view,
};
use crate::table::{Table, are_values, are_values_under};
use crate::turn::{TurnEvent, TurnEventView};
use std::collections::HashMap;
use vstd::prelude::*;
use vstd::seq_lib::lemma_seq_contains_after_push;
use vstd::std_specs::hash::group_hash_axioms;

verus! {

broadcast use group_hash_axioms;

/// The requests that await a reply and the turns that are under way. A `P` is where the
/// reply to a request goes, a `T` where the events of a turn go.
pub struct AppServer<P, T> {
    config: Config,
    next_id: u64,
    pending: HashMap<u64, P>,
    turns: Table<T>,
}

/// The content of an [`AppServer`].
#[verifier::ext_equal]
pub struct AppServerView<P, T> {
    pub config: Config,
    /// The identifier of the next request.
    pub next_id: u64,
    /// Where the replies to the open requests go, under the identifiers of the requests.
    pub pending: Map<u64, P>,
    /// Where the events of the running turns go, under the identifiers of their threads.
    pub turns: Map<Seq<char>, T>,
}

impl<P, T> View for AppServer<P, T> {
    type V = AppServerView<P, T>;

    closed spec fn view(&self) -> AppServerView<P, T> {
        AppServerView {
            config: self.config,
            next_id: self.next_id,
            pending: self.pending@,
            turns: self.turns@,
        }
    }
}

/// A request to the app-server.
#[derive(Debug)]
pub struct Call {
    pub method: &'static str,
    pub params: Json,
}

/// The content of a [`Call`].
#[verifier::ext_equal]
pub struct CallView {
    pub method: Seq<char>,
    pub params: JsonView,
}

impl View for Call {
    type V = CallView;

    open spec fn view(&self) -> CallView {
        CallView { method: self.method@, params: self.params@ }
    }
}

/// What a line of the app-server asks for.
#[derive(Debug)]
pub enum Received<P> {
    /// Nothing: the line is no JSON.
    Malformed,
    /// Nothing: the message is for nobody here.
    Ignored,
    /// This message has to be sent.
    Answer(Json),
    /// The open request with this destination has come to this outcome.
    Resolve(P, Result<Json, AppServerError>),
    /// The turn on this thread gets an event. If it is the `last`, the turn ends once the
    /// event is delivered.
    Deliver { thread_id: String, event: TurnEvent, last: bool },
}

/// The content of a [`Received`].
#[verifier::ext_equal]
pub enum ReceivedView<P> {
    Malformed,
    Ignored,
    Answer(JsonView),
    Resolve(P, Result<JsonView, AppServerErrorView>),
    Deliver { thread_id: Seq<char>, event: TurnEventView, last: bool },
}

impl<P> View for Received<P> {
    type V = ReceivedView<P>;

    open spec fn view(&self) -> ReceivedView<P> {
        match self {
            Received::Malformed => ReceivedView::Malformed,
            Received::Ignored => ReceivedView::Ignored,
            Received::Answer(answer) => ReceivedView::Answer(answer@),
            Received::Resolve(reply, outcome) => ReceivedView::Resolve(
                *reply,
                outcome_view(*outcome),
            ),
            Received::Deliver { thread_id, event, last } => ReceivedView::Deliver {
                thread_id: thread_id@,
                event: event@,
                last: *last,
            },
        }
    }
}

/// How far the start of a turn has come.
#[derive(Debug)]
pub enum TurnStart<T> {
    /// The thread was asked for. Then the turn can start with this prompt, and its events
    /// go to `events`.
    Thread { prompt: String, output_schema: Option<Json>, events: T },
    /// The turn was asked for.
    Turn { thread_id: String },
}

/// The content of a [`TurnStart`].
#[verifier::ext_equal]
pub enum TurnStartView<T> {
    Thread { prompt: Seq<char>, output_schema: Option<JsonView>, events: T },
    Turn { thread_id: Seq<char> },
}

impl<T> View for TurnStart<T> {
    type V = TurnStartView<T>;

    open spec fn view(&self) -> TurnStartView<T> {
        match self {
            TurnStart::Thread { prompt, output_schema, events } => TurnStartView::Thread {
                prompt: prompt@,
                output_schema: owned_view(*output_schema),
                events: *events,
            },
            TurnStart::Turn { thread_id } => TurnStartView::Turn { thread_id: thread_id@ },
        }
    }
}

/// What comes next in the start of a turn.
#[derive(Debug)]
pub enum TurnStep<T> {
    /// This call has to be made, and its outcome taken.
    Call(TurnStart<T>, Call),
    /// The turn runs.
    Started { thread_id: String, turn_id: String },
    Failed(AppServerError),
}

/// The content of a [`TurnStep`].
#[verifier::ext_equal]
pub enum TurnStepView<T> {
    Call(TurnStartView<T>, CallView),
    Started { thread_id: Seq<char>, turn_id: Seq<char> },
    Failed(AppServerErrorView),
}

impl<T> View for TurnStep<T> {
    type V = TurnStepView<T>;

    open spec fn view(&self) -> TurnStepView<T> {
        match self {
            TurnStep::Call(start, call) => TurnStepView::Call(start@, call@),
            TurnStep::Started { thread_id, turn_id } => TurnStepView::Started {
                thread_id: thread_id@,
                turn_id: turn_id@,
            },
            TurnStep::Failed(error) => TurnStepView::Failed(error@),
        }
    }
}

/// What is left to tell when the connection is closed.
#[derive(Debug)]
pub struct Closing<P, T> {
    /// The outcomes of the requests that were open.
    pub replies: Vec<(P, Result<Json, AppServerError>)>,
    /// The events for the turns that were running.
    pub events: Vec<(T, TurnEvent)>,
}

/// The identifier after this one.
pub open spec fn id_after(id: u64) -> u64 {
    if id < u64::MAX {
        (id + 1) as u64
    } else {
        0
    }
}

/// Whether a message is the reply to the request `id`.
pub open spec fn is_reply_to(message: JsonView, id: u64) -> bool {
    message.get("id"@) == Some(JsonView::integer(id as int)) && message.get("method"@) is None
}

/// The outcome of a call that got this reply; without one, the connection is closed.
pub open spec fn awaited_outcome(reply: Option<Result<JsonView, AppServerErrorView>>) -> Result<
    JsonView,
    AppServerErrorView,
> {
    match reply {
        Some(outcome) => outcome,
        None => Err(AppServerErrorView::Closed),
    }
}

/// The outcome of a call that waited for its reply, which does not come where its destination
/// is dropped.
pub fn awaited(reply: Option<Result<Json, AppServerError>>) -> (r: Result<Json, AppServerError>)
    ensures
        outcome_view(r) == awaited_outcome(
            match reply {
                Some(outcome) => Some(outcome_view(outcome)),
                None => None,
            },
        ),
{
    match reply {
        Some(outcome) => outcome,
        None => Err(AppServerError::Closed),
    }
}

/// Takes the outcome of `initialize`: what is to be sent next, or why the connection cannot
/// be used.
pub fn resume_handshake(outcome: Result<Json, AppServerError>) -> (r: Result<Json, AppServerError>)
    ensures
        outcome_view(r) == match outcome_view(outcome) {
            Ok(_) => Ok(notification_view("initialized"@, JsonView::object(Seq::empty()))),
            Err(error) => Err(error),
        },
{
    match outcome {
        Ok(_) => Ok(initialized_message()),
        Err(error) => Err(error),
    }
}

/// Whether an event ends its turn.
pub open spec fn is_last(event: TurnEventView) -> bool {
    event is Completed || event is Error
}

impl<P, T> AppServerView<P, T> {
    /// After a request was made whose reply goes to `reply`.
    pub open spec fn requested(self, reply: P) -> AppServerView<P, T> {
        AppServerView {
            next_id: id_after(self.next_id),
            pending: self.pending.insert(self.next_id, reply),
            ..self
        }
    }

    /// After the request `id` was given up or answered.
    pub open spec fn without_request(self, id: u64) -> AppServerView<P, T> {
        AppServerView { pending: self.pending.remove(id), ..self }
    }

    /// After a turn on this thread began.
    pub open spec fn with_turn(self, thread_id: Seq<char>, events: T) -> AppServerView<P, T> {
        AppServerView { turns: self.turns.insert(thread_id, events), ..self }
    }

    /// After the turn on this thread ended.
    pub open spec fn without_turn(self, thread_id: Seq<char>) -> AppServerView<P, T> {
        AppServerView { turns: self.turns.remove(thread_id), ..self }
    }

    /// After the connection was closed.
    pub open spec fn closed(self) -> AppServerView<P, T> {
        AppServerView { pending: Map::empty(), turns: Map::empty(), ..self }
    }

    /// What a notification asks for: that the turn on its thread, if one runs there, gets
    /// the event that it reports, if it reports one.
    pub open spec fn notified(self, message: JsonView) -> ReceivedView<P> {
        match message.text_in("params"@, "threadId"@) {
            Some(thread_id) => match event_of(
                method_of(message),
                message.get("params"@)->0,
            ) {
                Some(event) => if self.turns.contains_key(thread_id) {
                    ReceivedView::Deliver { thread_id, event, last: is_last(event) }
                } else {
                    ReceivedView::Ignored
                },
                None => ReceivedView::Ignored,
            },
            None => ReceivedView::Ignored,
        }
    }

    /// What a message asks for at the time `now`. One with a method and an identifier is a
    /// request, one with a numeric identifier alone is a reply, every other a notification.
    pub open spec fn dispatched(self, message: JsonView, now: u64) -> ReceivedView<P> {
        match message.get("id"@) {
            Some(id) => if message.get("method"@) is Some {
                ReceivedView::Answer(answer_view(id, message, now))
            } else {
                match id.as_u64() {
                    Some(n) => if self.pending.contains_key(n) {
                        ReceivedView::Resolve(self.pending[n], reply_outcome(message))
                    } else {
                        ReceivedView::Ignored
                    },
                    None => self.notified(message),
                }
            },
            None => self.notified(message),
        }
    }

    /// After a message: a reply closes its request, nothing else changes anything.
    pub open spec fn after(self, message: JsonView) -> AppServerView<P, T> {
        match message.get("id"@) {
            Some(id) => match id.as_u64() {
                Some(n) => if message.get("method"@) is None {
                    self.without_request(n)
                } else {
                    self
                },
                None => self,
            },
            None => self,
        }
    }

    /// What a line asks for at the time `now`.
    pub open spec fn received(self, line: Seq<char>, now: u64) -> ReceivedView<P> {
        match json_parsed(line) {
            Some(message) => self.dispatched(message, now),
            None => ReceivedView::Malformed,
        }
    }

    /// After a line.
    pub open spec fn after_line(self, line: Seq<char>) -> AppServerView<P, T> {
        match json_parsed(line) {
            Some(message) => self.after(message),
            None => self,
        }
    }

    /// What comes after the outcome of the call that the start of a turn has made.
    pub open spec fn resumed(
        self,
        start: TurnStartView<T>,
        outcome: Result<JsonView, AppServerErrorView>,
    ) -> TurnStepView<T> {
        match (start, outcome) {
            (_, Err(error)) => TurnStepView::Failed(error),
            (TurnStartView::Thread { prompt, output_schema, .. }, Ok(thread)) => match thread
                .text_in("thread"@, "id"@) {
                Some(thread_id) => TurnStepView::Call(
                    TurnStartView::Turn { thread_id },
                    CallView {
                        method: "turn/start"@,
                        params: turn_start_view(thread_id, prompt, output_schema),
                    },
                ),
                None => TurnStepView::Failed(
                    AppServerErrorView::Protocol("thread/start omitted thread.id"@),
                ),
            },
            (TurnStartView::Turn { thread_id }, Ok(turn)) => match turn.text_in("turn"@, "id"@) {
                Some(turn_id) => TurnStepView::Started { thread_id, turn_id },
                None => TurnStepView::Failed(
                    AppServerErrorView::Protocol("turn/start omitted turn.id"@),
                ),
            },
        }
    }

    /// After that: the turn is there from the moment its thread is known, and gone again
    /// where the app-server refuses to start it.
    pub open spec fn after_outcome(
        self,
        start: TurnStartView<T>,
        outcome: Result<JsonView, AppServerErrorView>,
    ) -> AppServerView<P, T> {
        match (start, outcome) {
            (TurnStartView::Thread { events, .. }, Ok(thread)) => match thread.text_in(
                "thread"@,
                "id"@,
            ) {
                Some(thread_id) => self.with_turn(thread_id, events),
                None => self,
            },
            (TurnStartView::Turn { thread_id }, Err(_)) => self.without_turn(thread_id),
            _ => self,
        }
    }
}

/// Whether `replies` are the destinations of the open requests, each told that the
/// connection is closed.
pub open spec fn all_closed<P>(
    replies: Seq<(P, Result<Json, AppServerError>)>,
    pending: Map<u64, P>,
) -> bool {
    &&& are_values(replies.map_values(|reply: (P, Result<Json, AppServerError>)| reply.0), pending)
    &&& forall|i: int|
        0 <= i < replies.len() ==> (#[trigger] replies[i]).1 matches Err(AppServerError::Closed)
}

/// Whether `events` are the destinations of the running turns, each told that the
/// app-server is gone.
pub open spec fn all_failed<T>(events: Seq<(T, TurnEvent)>, turns: Map<Seq<char>, T>) -> bool {
    &&& are_values(events.map_values(|event: (T, TurnEvent)| event.0), turns)
    &&& forall|i: int|
        0 <= i < events.len() ==> (#[trigger] events[i]).1@ == TurnEventView::Error(
            "Codex app-server closed"@,
        )
}

impl<P, T> AppServer<P, T> {
    /// That no thread has two turns.
    pub closed spec fn wf(&self) -> bool {
        self.turns.wf()
    }

    /// A connection that was just opened.
    pub fn new(config: Config) -> (r: AppServer<P, T>)
        ensures
            r.wf(),
            r@ == (AppServerView::<P, T> {
                config,
                next_id: 1,
                pending: Map::empty(),
                turns: Map::empty(),
            }),
    {
        AppServer { config, next_id: 1, pending: HashMap::new(), turns: Table::new() }
    }

    /// Opens a request: returns its identifier and the message to send. The outcome goes to
    /// `reply`.
    pub fn rpc(&mut self, method: &str, params: Json, reply: P) -> (r: (u64, Json))
        requires
            old(self).wf(),
        ensures
            final(self).wf(),
            final(self)@ == old(self)@.requested(reply),
            r.0 == old(self)@.next_id,
            r.1@ == request_view(old(self)@.next_id, method@, params@),
    {
        let id: u64 = self.next_id;
        self.next_id = id.wrapping_add(1);
        let _ = self.pending.insert(id, reply);
        (id, request_message(id, method, params))
    }

    /// Gives up the request `id`, whose message could not be sent.
    pub fn abandon(&mut self, id: u64) -> (r: AppServerError)
        requires
            old(self).wf(),
        ensures
            final(self).wf(),
            final(self)@ == old(self)@.without_request(id),
            r@ == AppServerErrorView::Closed,
    {
        let _ = self.pending.remove(&id);
        assert(self@ =~= old(self)@.without_request(id));
        AppServerError::Closed
    }

    /// Starts a turn with this prompt: returns the first call to make. The events of the
    /// turn go to `events`.
    pub fn start_turn(&self, prompt: String, output_schema: Option<Json>, events: T) -> (r: (
        TurnStart<T>,
        Call,
    ))
        ensures
            r.0@ == (TurnStartView::Thread {
                prompt: prompt@,
                output_schema: owned_view(output_schema),
                events,
            }),
            r.1@ == (CallView { method: "thread/start"@, params: thread_start_view(self@.config) }),
    {
        let params = thread_start_params(&self.config);
        (
            TurnStart::Thread { prompt, output_schema, events },
            Call { method: "thread/start", params },
        )
    }

    /// Takes the outcome of the call that the start of a turn has made.
    pub fn resume_turn(
        &mut self,
        start: TurnStart<T>,
        outcome: Result<Json, AppServerError>,
    ) -> (r: TurnStep<T>)
        requires
            old(self).wf(),
        ensures
            final(self).wf(),
            final(self)@ == old(self)@.after_outcome(start@, outcome_view(outcome)),
            r@ == old(self)@.resumed(start@, outcome_view(outcome)),
    {
        match start {
            TurnStart::Thread { prompt, output_schema, events } => {
                let thread = match outcome {
                    Ok(thread) => thread,
                    Err(error) => return TurnStep::Failed(error),
                };
                match thread.text_in("thread", "id") {
                    Some(thread_id) => {
                        let params = turn_start_params(thread_id, prompt.as_str(), output_schema);
                        self.turns.insert(thread_id.to_owned(), events);
                        TurnStep::Call(
                            TurnStart::Turn { thread_id: thread_id.to_owned() },
                            Call { method: "turn/start", params },
                        )
                    },
                    None => TurnStep::Failed(
                        AppServerError::Protocol("thread/start omitted thread.id".to_owned()),
                    ),
                }
            },
            TurnStart::Turn { thread_id } => {
                let turn = match outcome {
                    Ok(turn) => turn,
                    Err(error) => {
                        self.turns.remove(thread_id.as_str());
                        return TurnStep::Failed(error);
                    },
                };
                match turn.text_in("turn", "id") {
                    Some(turn_id) => TurnStep::Started { thread_id, turn_id: turn_id.to_owned() },
                    None => TurnStep::Failed(
                        AppServerError::Protocol("turn/start omitted turn.id".to_owned()),
                    ),
                }
            },
        }
    }

    /// The call that cancels a turn. Nothing depends on its outcome.
    pub fn interrupt(&self, thread_id: &str, turn_id: &str) -> (r: Call)
        ensures
            r@ == (CallView {
                method: "turn/interrupt"@,
                params: interrupt_view(thread_id@, turn_id@),
            }),
    {
        Call { method: "turn/interrupt", params: interrupt_params(thread_id, turn_id) }
    }

    /// Takes a message of the app-server, at the time `now`.
    pub fn dispatch_at(&mut self, message: &Json, now: u64) -> (r: Received<P>)
        requires
            old(self).wf(),
        ensures
            final(self).wf(),
            final(self)@ == old(self)@.after(message@),
            r@ == old(self)@.dispatched(message@, now),
    {
        if let Some(id) = message.get("id") {
            if message.get("method").is_some() {
                return Received::Answer(answer_server_request_at(id.clone(), message, now));
            }
            if let Some(id) = id.as_u64() {
                let reply = self.pending.remove(&id);
                assert(self@ =~= old(self)@.without_request(id));
                return match reply {
                    Some(reply) => Received::Resolve(reply, reply_result(message)),
                    None => Received::Ignored,
                };
            }
        }
        self.route_notification(message)
    }

    fn route_notification(&self, message: &Json) -> (r: Received<P>)
        requires
            self.wf(),
        ensures
            r@ == self@.notified(message@),
    {
        let params = match message.get("params") {
            Some(params) => params,
            None => return Received::Ignored,
        };
        let thread_id = match params.text_at("threadId") {
            Some(thread_id) => thread_id,
            None => return Received::Ignored,
        };
        if self.turns.get(thread_id).is_none() {
            return Received::Ignored;
        }
        match notification_event(method(message), params) {
            Some(event) => {
                let last = match &event {
                    TurnEvent::Delta(_) => false,
                    _ => true,
                };
                Received::Deliver { thread_id: thread_id.to_owned(), event, last }
            },
            None => Received::Ignored,
        }
    }

    /// Takes a line of the app-server, at the time `now`.
    pub fn receive_at(&mut self, line: &str, now: u64) -> (r: Received<P>)
        requires
            old(self).wf(),
        ensures
            final(self).wf(),
            final(self)@ == old(self)@.after_line(line@),
            r@ == old(self)@.received(line@, now),
    {
        match parse(line) {
            Some(message) => self.dispatch_at(&message, now),
            None => Received::Malformed,
        }
    }

    /// Takes a line of the app-server.
    pub fn receive(&mut self, line: &str) -> (r: Received<P>)
        requires
            old(self).wf(),
        ensures
            final(self).wf(),
            final(self)@ == old(self)@.after_line(line@),
            exists|now: u64|
                is_clock_reading(now) && r@ == #[trigger] old(self)@.received(line@, now),
    {
        let now: u64 = now_seconds();
        self.receive_at(line, now)
    }

    /// Where the events of the turn on a thread go, if one runs there.
    pub fn turn(&self, thread_id: &str) -> (r: Option<&T>)
        requires
            self.wf(),
        ensures
            match r {
                Some(events) => self@.turns.contains_key(thread_id@) && *events
                    == self@.turns[thread_id@],
                None => !self@.turns.contains_key(thread_id@),
            },
    {
        self.turns.get(thread_id)
    }

    /// Ends the turn on a thread, whose last event was delivered.
    pub fn end_turn(&mut self, thread_id: &str)
        requires
            old(self).wf(),
        ensures
            final(self).wf(),
            final(self)@ == old(self)@.without_turn(thread_id@),
    {
        self.turns.remove(thread_id);
    }

    /// Closes the connection: no request stays open, and no turn goes on.
    pub fn close(&mut self) -> (r: Closing<P, T>)
        requires
            old(self).wf(),
        ensures
            final(self).wf(),
            final(self)@ == old(self)@.closed(),
            all_closed(r.replies@, old(self)@.pending),
            all_failed(r.events@, old(self)@.turns),
    {
        let replies = self.close_requests();
        let senders = self.turns.drain();
        let ghost all = senders@;
        let mut events: Vec<(T, TurnEvent)> = Vec::new();
        for sender in it: senders
            invariant
                it.seq() == all,
                events@.len() == it.index(),
                forall|j: int|
                    0 <= j < it.index() ==> (#[trigger] events@[j]).0 == all[j] && events@[j].1@
                        == TurnEventView::Error("Codex app-server closed"@),
        {
            events.push((sender, TurnEvent::Error("Codex app-server closed".to_owned())));
        }
        assert(events@.map_values(|event: (T, TurnEvent)| event.0) =~= all);
        Closing { replies, events }
    }

    fn close_requests(&mut self) -> (r: Vec<(P, Result<Json, AppServerError>)>)
        requires
            old(self).wf(),
        ensures
            final(self).wf(),
            final(self)@ == (AppServerView { pending: Map::empty(), ..old(self)@ }),
            all_closed(r@, old(self)@.pending),
    {
        let ghost before = self.pending@;
        let mut ids: Vec<u64> = Vec::new();
        for id in it: self.pending.keys()
            invariant
                ids@.len() == it.index(),
                forall|j: int| 0 <= j < it.index() ==> #[trigger] ids@[j] == *it.seq()[j],
                it.seq().unref().to_set() == before.dom(),
                it.seq().unref().no_duplicates(),
                it.index() == it.seq().len() ==> ids@ =~= it.seq().unref(),
        {
            ids.push(*id);
        }
        assert(ids@.to_set() == before.dom());
        let mut replies: Vec<(P, Result<Json, AppServerError>)> = Vec::new();
        let mut i: usize = 0;
        while i < ids.len()
            invariant
                i <= ids@.len(),
                ids@.no_duplicates(),
                ids@.to_set() == before.dom(),
                forall|k: u64|
                    #[trigger] self.pending@.contains_key(k) <==> before.contains_key(k) && !ids@.take(
                        i as int,
                    ).contains(k),
                forall|k: u64| #[trigger] self.pending@.contains_key(k) ==> self.pending@[k] == before[k],
                replies@.len() == i,
                forall|j: int|
                    0 <= j < i ==> (#[trigger] replies@[j]).0 == before[ids@[j]] && (replies@[j].1
                        matches Err(AppServerError::Closed)),
                self.config == old(self).config,
                self.next_id == old(self).next_id,
                self.turns == old(self).turns,
            decreases ids@.len() - i,
        {
            let ghost id = ids@[i as int];
            proof {
                assert(ids@.to_set().contains(id));
                assert(ids@.take(i + 1) =~= ids@.take(i as int).push(id));
                if ids@.take(i as int).contains(id) {
                    let j = choose|j: int| 0 <= j < i && ids@.take(i as int)[j] == id;
                    assert(ids@[j] == ids@[i as int]);
                }
                assert forall|k: u64| ids@.take(i + 1).contains(k) <==> ids@.take(i as int).contains(k)
                    || k == id by {
                    lemma_seq_contains_after_push(ids@.take(i as int), id, k);
                }
            }
            if let Some(reply) = self.pending.remove(&ids[i]) {
                replies.push((reply, Err(AppServerError::Closed)));
            }
            i = i + 1;
        }
        proof {
            assert(ids@.take(i as int) =~= ids@);
            assert forall|k: u64| !self.pending@.contains_key(k) by {
                if before.contains_key(k) {
                    assert(ids@.to_set().contains(k));
                }
            }
            assert(self.pending@ =~= Map::empty());
            assert(are_values_under(
                replies@.map_values(|reply: (P, Result<Json, AppServerError>)| reply.0),
                ids@,
                before,
            ));
        }
        replies
    }
}

/// The identifier of the request that is `n` requests after the one with this identifier.
pub open spec fn nth_id(first: u64, n: nat) -> u64
    decreases n,
{
    if n == 0 {
        first
    } else {
        id_after(nth_id(first, (n - 1) as nat))
    }
}

/// The identifiers of requests differ, until they run out and start again.
pub proof fn law_request_identifiers_differ(first: u64, i: nat, j: nat)
    requires
        i < j,
        j - i <= u64::MAX,
    ensures
        nth_id(first, i) != nth_id(first, j),
{
    lemma_nth_id(first, i);
    lemma_nth_id(first, j);
    let size = u64::MAX + 1;
    vstd::arithmetic::div_mod::lemma_fundamental_div_mod(first + i, size);
    vstd::arithmetic::div_mod::lemma_fundamental_div_mod(first + j, size);
    if nth_id(first, i) == nth_id(first, j) {
        let k = (first + j) / size - (first + i) / size;
        assert(size * k == j - i) by {
            vstd::arithmetic::mul::lemma_mul_is_distributive_sub(
                size,
                (first + j) / size,
                (first + i) / size,
            );
        }
        assert(false) by (nonlinear_arith)
            requires
                size * k == j - i,
                size == u64::MAX + 1,
                0 < j - i < size,
        ;
    }
}

proof fn lemma_nth_id(first: u64, n: nat)
    ensures
        nth_id(first, n) == (first + n) % (u64::MAX + 1),
    decreases n,
{
    let size = u64::MAX + 1;
    if n > 0 {
        lemma_nth_id(first, (n - 1) as nat);
        vstd::arithmetic::div_mod::lemma_add_mod_noop(first + n - 1, 1, size);
        assert(first + n - 1 + 1 == first + n);
    } else {
        vstd::arithmetic::div_mod::lemma_small_mod(first as nat, size as nat);
    }
}

/// The reply to an open request gives the request its outcome, and gives it once: a second
/// reply is for nobody. Every other open request stays open.
pub proof fn law_replies_reach_their_requests<P, T>(
    server: AppServerView<P, T>,
    id: u64,
    message: JsonView,
    now: u64,
)
    requires
        server.pending.contains_key(id),
        is_reply_to(message, id),
    ensures
        server.dispatched(message, now) == ReceivedView::Resolve(
            server.pending[id],
            reply_outcome(message),
        ),
        server.after(message) == server.without_request(id),
        server.after(message).dispatched(message, now) is Ignored,
        forall|other: u64|
            other != id ==> (#[trigger] server.after(message).pending.contains_key(other)
                <==> server.pending.contains_key(other)) && (server.pending.contains_key(other)
                ==> server.after(message).pending[other] == server.pending[other]),
{
}

/// The messages of different requests are written with different identifiers, each with its
/// own method and parameters.
pub proof fn law_written_requests_differ(
    first: u64,
    i: nat,
    j: nat,
    method_i: Seq<char>,
    method_j: Seq<char>,
    params_i: JsonView,
    params_j: JsonView,
)
    requires
        i < j,
        j - i <= u64::MAX,
    ensures
        ({
            let a = request_view(nth_id(first, i), method_i, params_i);
            let b = request_view(nth_id(first, j), method_j, params_j);
            &&& a.get("id"@) is Some
            &&& b.get("id"@) is Some
            &&& a.get("id"@) != b.get("id"@)
            &&& a.get("method"@) == Some(JsonView::String(method_i))
            &&& b.get("method"@) == Some(JsonView::String(method_j))
            &&& a.get("params"@) == Some(params_i)
            &&& b.get("params"@) == Some(params_j)
        }),
{
    law_request_identifiers_differ(first, i, j);
    law_requests_hold_their_parts(nth_id(first, i), method_i, params_i);
    law_requests_hold_their_parts(nth_id(first, j), method_j, params_j);
}

/// Every call that is open when the connection is closed is told so.
pub proof fn law_closing_reaches_every_call<P>(
    replies: Seq<(P, Result<Json, AppServerError>)>,
    pending: Map<u64, P>,
    id: u64,
)
    requires
        all_closed(replies, pending),
        pending.contains_key(id),
    ensures
        exists|i: int|
            0 <= i < replies.len() && (#[trigger] replies[i]).0 == pending[id] && outcome_view(
                replies[i].1,
            ) == Err::<JsonView, AppServerErrorView>(AppServerErrorView::Closed),
{
    let values = replies.map_values(|reply: (P, Result<Json, AppServerError>)| reply.0);
    assert(are_values(values, pending));
    let ids = choose|ids: Seq<u64>| #[trigger] are_values_under(values, ids, pending);
    assert(ids.to_set().contains(id));
    let i = choose|i: int| 0 <= i < ids.len() && ids[i] == id;
    assert(values[i] == pending[ids[i]]);
    assert(replies[i].0 == values[i]);
}

/// Nothing but the reply to an open request gives a request its outcome.
pub proof fn law_only_replies_resolve<P, T>(
    server: AppServerView<P, T>,
    message: JsonView,
    now: u64,
)
    ensures
        server.dispatched(message, now) matches ReceivedView::Resolve(reply, outcome) ==> exists|
            id: u64,
        | #[trigger]
            is_reply_to(message, id) && server.pending.contains_key(id) && server.pending[id] == reply
                && outcome == reply_outcome(message),
{
    if server.dispatched(message, now) is Resolve {
        let id = message.get("id"@)->0.as_u64()->0;
        assert(is_reply_to(message, id));
    }
}

/// After requests were made whose replies go to `replies`, one after the other.
pub open spec fn requested_all<P, T>(server: AppServerView<P, T>, replies: Seq<P>) -> AppServerView<
    P,
    T,
>
    decreases replies.len(),
{
    if replies.len() == 0 {
        server
    } else {
        requested_all(server, replies.drop_last()).requested(replies.last())
    }
}

/// Any number of requests are open together, up to as many as there are identifiers, each
/// under its own identifier with its own destination; those that were open before and whose
/// identifiers are not taken again stay so too.
pub proof fn law_requests_are_open_together<P, T>(server: AppServerView<P, T>, replies: Seq<P>)
    requires
        replies.len() <= u64::MAX + 1,
    ensures
        requested_all(server, replies).next_id == nth_id(server.next_id, replies.len()),
        forall|k: int|
            0 <= k < replies.len() ==> requested_all(server, replies).pending.contains_key(
                #[trigger] nth_id(server.next_id, k as nat),
            ) && requested_all(server, replies).pending[nth_id(server.next_id, k as nat)]
                == replies[k],
        forall|id: u64|
            #[trigger] server.pending.contains_key(id) && (forall|k: int|
                0 <= k < replies.len() ==> #[trigger] nth_id(server.next_id, k as nat) != id)
                ==> requested_all(server, replies).pending.contains_key(id) && requested_all(
                server,
                replies,
            ).pending[id] == server.pending[id],
    decreases replies.len(),
{
    if replies.len() > 0 {
        let front = replies.drop_last();
        let last = (replies.len() - 1) as nat;
        let before = requested_all(server, front);
        let first = server.next_id;
        law_requests_are_open_together(server, front);
        assert(nth_id(first, replies.len()) == id_after(nth_id(first, last)));
        assert forall|k: int| 0 <= k < replies.len() implies requested_all(
            server,
            replies,
        ).pending.contains_key(#[trigger] nth_id(first, k as nat)) && requested_all(
            server,
            replies,
        ).pending[nth_id(first, k as nat)] == replies[k] by {
            if k < last {
                law_request_identifiers_differ(first, k as nat, last);
                assert(replies[k] == front[k]);
            }
        }
        assert forall|id: u64|
            #[trigger] server.pending.contains_key(id) && (forall|k: int|
                0 <= k < replies.len() ==> #[trigger] nth_id(
                    first,
                    k as nat,
                ) != id) implies requested_all(server, replies).pending.contains_key(id)
            && requested_all(server, replies).pending[id] == server.pending[id] by {
            assert(nth_id(first, last as int as nat) != id);
        }
    }
}

/// After these messages came, one after the other.
pub open spec fn after_all<P, T>(server: AppServerView<P, T>, messages: Seq<JsonView>) -> AppServerView<
    P,
    T,
>
    decreases messages.len(),
{
    if messages.len() == 0 {
        server
    } else {
        after_all(server, messages.drop_last()).after(messages.last())
    }
}

/// Requests that are open together get their replies in whatever order these come: each goes
/// to the destination of the request whose identifier it bears, and to no other. `order[i]`
/// says which request the message at `i` replies to.
pub proof fn law_replies_come_in_any_order<P, T>(
    server: AppServerView<P, T>,
    replies: Seq<P>,
    messages: Seq<JsonView>,
    order: Seq<int>,
    i: int,
    now: u64,
)
    requires
        replies.len() <= u64::MAX + 1,
        messages.len() == order.len(),
        order.no_duplicates(),
        forall|k: int|
            0 <= k < order.len() ==> 0 <= #[trigger] order[k] < replies.len() && is_reply_to(
                messages[k],
                nth_id(server.next_id, order[k] as nat),
            ),
        0 <= i < messages.len(),
    ensures
        after_all(requested_all(server, replies), messages.take(i)).dispatched(messages[i], now)
            == ReceivedView::Resolve(replies[order[i]], reply_outcome(messages[i])),
{
    lemma_unanswered_stay_open(server, replies, messages, order, i, order[i]);
    assert(is_reply_to(messages[i], nth_id(server.next_id, order[i] as nat)));
}

/// The request `r` is open as long as none of the first `i` messages replies to it.
proof fn lemma_unanswered_stay_open<P, T>(
    server: AppServerView<P, T>,
    replies: Seq<P>,
    messages: Seq<JsonView>,
    order: Seq<int>,
    i: int,
    r: int,
)
    requires
        replies.len() <= u64::MAX + 1,
        messages.len() == order.len(),
        forall|k: int|
            0 <= k < order.len() ==> 0 <= #[trigger] order[k] < replies.len() && is_reply_to(
                messages[k],
                nth_id(server.next_id, order[k] as nat),
            ),
        0 <= i <= messages.len(),
        0 <= r < replies.len(),
        forall|k: int| 0 <= k < i ==> #[trigger] order[k] != r,
    ensures
        ({
            let now = after_all(requested_all(server, replies), messages.take(i));
            let id = nth_id(server.next_id, r as nat);
            now.pending.contains_key(id) && now.pending[id] == replies[r]
        }),
    decreases i,
{
    let first = server.next_id;
    if i == 0 {
        law_requests_are_open_together(server, replies);
        assert(requested_all(server, replies).pending.contains_key(nth_id(first, r as nat)));
    } else {
        lemma_unanswered_stay_open(server, replies, messages, order, i - 1, r);
        assert(messages.take(i).drop_last() =~= messages.take(i - 1));
        let other = order[i - 1];
        assert(is_reply_to(messages[i - 1], nth_id(first, other as nat)));
        if other < r {
            law_request_identifiers_differ(first, other as nat, r as nat);
        } else {
            law_request_identifiers_differ(first, r as nat, other as nat);
        }
    }
}

/// What can happen to a connection while a call waits for its reply.
pub enum Step<P, T> {
    /// Another request is made, whose reply goes there.
    Request(P),
    /// A message comes.
    Message(JsonView),
    /// A request is given up.
    Abandon(u64),
    /// A turn begins on a thread.
    Begin(Seq<char>, T),
    /// A turn ends on a thread.
    End(Seq<char>),
}

/// After these steps, one after the other.
pub open spec fn after_steps<P, T>(server: AppServerView<P, T>, steps: Seq<Step<P, T>>) -> AppServerView<
    P,
    T,
>
    decreases steps.len(),
{
    if steps.len() == 0 {
        server
    } else {
        let before = after_steps(server, steps.drop_last());
        match steps.last() {
            Step::Request(reply) => before.requested(reply),
            Step::Message(message) => before.after(message),
            Step::Abandon(id) => before.without_request(id),
            Step::Begin(thread_id, events) => before.with_turn(thread_id, events),
            Step::End(thread_id) => before.without_turn(thread_id),
        }
    }
}

/// How many requests are made in these steps.
pub open spec fn requests_in<P, T>(steps: Seq<Step<P, T>>) -> nat
    decreases steps.len(),
{
    if steps.len() == 0 {
        0
    } else {
        requests_in(steps.drop_last()) + if steps.last() is Request {
            1nat
        } else {
            0nat
        }
    }
}

/// Whether a step is about the request `id`: the reply to it comes, or it is given up.
pub open spec fn settles<P, T>(step: Step<P, T>, id: u64) -> bool {
    match step {
        Step::Message(message) => is_reply_to(message, id),
        Step::Abandon(other) => other == id,
        _ => false,
    }
}

/// A call gets the reply that bears its own identifier, whatever happened since: other calls
/// were made, answered or given up in any order, other messages came, turns began and ended.
/// Only once all identifiers were used up could another call have taken its place.
pub proof fn law_calls_get_their_own_replies<P, T>(
    server: AppServerView<P, T>,
    reply: P,
    steps: Seq<Step<P, T>>,
    message: JsonView,
    now: u64,
)
    requires
        requests_in(steps) <= u64::MAX,
        forall|i: int|
            0 <= i < steps.len() ==> !settles(#[trigger] steps[i], server.next_id),
        is_reply_to(message, server.next_id),
    ensures
        after_steps(server.requested(reply), steps).dispatched(message, now)
            == ReceivedView::Resolve(reply, reply_outcome(message)),
{
    lemma_calls_stay_open(server, reply, steps);
}

/// The requests that are made in a sequence of steps bear the identifiers in their order.
pub proof fn law_requests_bear_the_next_identifiers<P, T>(
    server: AppServerView<P, T>,
    steps: Seq<Step<P, T>>,
)
    ensures
        after_steps(server, steps).next_id == nth_id(server.next_id, requests_in(steps)),
    decreases steps.len(),
{
    if steps.len() > 0 {
        law_requests_bear_the_next_identifiers(server, steps.drop_last());
    }
}

proof fn lemma_calls_stay_open<P, T>(server: AppServerView<P, T>, reply: P, steps: Seq<Step<P, T>>)
    requires
        requests_in(steps) <= u64::MAX,
        forall|i: int|
            0 <= i < steps.len() ==> !settles(#[trigger] steps[i], server.next_id),
    ensures
        after_steps(server.requested(reply), steps).pending.contains_key(server.next_id),
        after_steps(server.requested(reply), steps).pending[server.next_id] == reply,
    decreases steps.len(),
{
    if steps.len() > 0 {
        let front = steps.drop_last();
        let id = server.next_id;
        assert forall|i: int| 0 <= i < front.len() implies !settles(#[trigger] front[i], id) by {
            assert(front[i] == steps[i]);
        }
        lemma_calls_stay_open(server, reply, front);
        assert(!settles(steps[steps.len() - 1], id));
        if steps.last() is Request {
            law_requests_bear_the_next_identifiers(server.requested(reply), front);
            let n = requests_in(front);
            lemma_nth_id_shift(id, n);
            law_request_identifiers_differ(id, 0, n + 1);
        }
    }
}

proof fn lemma_nth_id_shift(first: u64, n: nat)
    ensures
        nth_id(id_after(first), n) == nth_id(first, n + 1),
    decreases n,
{
    if n == 0 {
        assert(nth_id(first, 0) == first);
    } else {
        lemma_nth_id_shift(first, (n - 1) as nat);
    }
}

/// A message leaves every open request open but the one that it replies to, and every turn
/// in place; what it asks for concerns at most the one request or the one turn that it names.
pub proof fn law_messages_leave_the_others_alone<P, T>(
    server: AppServerView<P, T>,
    message: JsonView,
    now: u64,
)
    ensures
        server.after(message).turns == server.turns,
        server.after(message).config == server.config,
        server.after(message).next_id == server.next_id,
        forall|id: u64|
            #[trigger] server.pending.contains_key(id) && message.get("id"@) != Some(
                JsonView::integer(id as int),
            ) ==> server.after(message).pending.contains_key(id) && server.after(message).pending[id]
                == server.pending[id],
        server.dispatched(message, now) matches ReceivedView::Deliver { thread_id, .. }
            ==> message.text_in("params"@, "threadId"@) == Some(thread_id)
            && server.turns.contains_key(thread_id) && server.after(message) == server,
{
}

/// Every request of the app-server, and nothing else, gets an answer. It changes nothing.
pub proof fn law_server_requests_are_answered<P, T>(
    server: AppServerView<P, T>,
    message: JsonView,
    now: u64,
)
    ensures
        server.dispatched(message, now) is Answer <==> message.get("id"@) is Some && message.get(
            "method"@,
        ) is Some,
        server.dispatched(message, now) matches ReceivedView::Answer(answer) ==> answer.get("id"@)
            == message.get("id"@) && server.after(message) == server,
{
    if message.get("id"@) is Some {
        law_answers_carry_the_identifier(message.get("id"@)->0, message, now);
    }
}

/// A turn that was started gets the deltas of its thread, each as it comes; when its end is
/// reported, that is the last of it, and what comes for the thread afterwards is for nobody.
pub proof fn law_turns_get_their_events<P, T>(
    server: AppServerView<P, T>,
    thread_id: Seq<char>,
    events: T,
    message: JsonView,
    now: u64,
)
    requires
        message.get("id"@) is None,
        message.text_in("params"@, "threadId"@) == Some(thread_id),
        event_of(method_of(message), message.get("params"@)->0) is Some,
    ensures
        ({
            let running = server.with_turn(thread_id, events);
            let event = event_of(method_of(message), message.get("params"@)->0)->0;
            &&& running.turns[thread_id] == events
            &&& running.dispatched(message, now) == ReceivedView::<P>::Deliver {
                thread_id,
                event,
                last: !(event is Delta),
            }
            &&& running.without_turn(thread_id).dispatched(message, now) is Ignored
        }),
{
}

/// After a message was taken, and its event, if it brought one, delivered.
pub open spec fn after_delivery<P, T>(
    server: AppServerView<P, T>,
    message: JsonView,
    now: u64,
) -> AppServerView<P, T> {
    match server.dispatched(message, now) {
        ReceivedView::Deliver { thread_id, last: true, .. } => server.after(message).without_turn(
            thread_id,
        ),
        _ => server.after(message),
    }
}

/// After these messages, which came at these times, were taken and their events delivered.
pub open spec fn after_deliveries<P, T>(
    server: AppServerView<P, T>,
    messages: Seq<JsonView>,
    times: Seq<u64>,
) -> AppServerView<P, T>
    decreases messages.len(),
{
    if messages.len() == 0 {
        server
    } else {
        after_deliveries(
            after_delivery(server, messages.first(), times.first()),
            messages.drop_first(),
            times.drop_first(),
        )
    }
}

/// The events that these messages, which came at these times, bring to the turn on a thread.
pub open spec fn events_delivered<P, T>(
    server: AppServerView<P, T>,
    thread_id: Seq<char>,
    messages: Seq<JsonView>,
    times: Seq<u64>,
) -> Seq<TurnEventView>
    decreases messages.len(),
{
    if messages.len() == 0 {
        Seq::empty()
    } else {
        let rest = events_delivered(
            after_delivery(server, messages.first(), times.first()),
            thread_id,
            messages.drop_first(),
            times.drop_first(),
        );
        match server.dispatched(messages.first(), times.first()) {
            ReceivedView::Deliver { thread_id: thread, event, .. } => if thread == thread_id {
                seq![event] + rest
            } else {
                rest
            },
            _ => rest,
        }
    }
}

/// Whether a message is a notification: neither a request nor a reply.
pub open spec fn is_notification(message: JsonView) -> bool {
    match message.get("id"@) {
        Some(id) => message.get("method"@) is None && id.as_u64() is None,
        None => true,
    }
}

/// The event that a message reports of a thread, if it reports one.
pub open spec fn event_on(thread_id: Seq<char>, message: JsonView) -> Option<TurnEventView> {
    if is_notification(message) && message.text_in("params"@, "threadId"@) == Some(thread_id) {
        event_of(method_of(message), message.get("params"@)->0)
    } else {
        None
    }
}

/// The events that these messages report of a thread, in their order.
pub open spec fn events_on(thread_id: Seq<char>, messages: Seq<JsonView>) -> Seq<TurnEventView>
    decreases messages.len(),
{
    if messages.len() == 0 {
        Seq::empty()
    } else {
        let rest = events_on(thread_id, messages.drop_first());
        match event_on(thread_id, messages.first()) {
            Some(event) => seq![event] + rest,
            None => rest,
        }
    }
}

/// These events up to the first that ends a turn, and with it.
pub open spec fn up_to_last(events: Seq<TurnEventView>) -> Seq<TurnEventView>
    decreases events.len(),
{
    if events.len() == 0 {
        Seq::empty()
    } else if is_last(events.first()) {
        seq![events.first()]
    } else {
        seq![events.first()] + up_to_last(events.drop_first())
    }
}

/// Whatever messages come, a running turn gets the events of its thread in their order, up to
/// the first that ends it and nothing after: deltas, then at most one end. It runs exactly
/// until that one, and its events go to the same destination all the time.
pub proof fn law_turns_run_to_their_end<P, T>(
    server: AppServerView<P, T>,
    thread_id: Seq<char>,
    messages: Seq<JsonView>,
    times: Seq<u64>,
)
    requires
        server.turns.contains_key(thread_id),
    ensures
        ({
            let events = events_delivered(server, thread_id, messages, times);
            let after = after_deliveries(server, messages, times);
            &&& events == up_to_last(events_on(thread_id, messages))
            &&& forall|i: int| 0 <= i < events.len() - 1 ==> #[trigger] events[i] is Delta
            &&& after.turns.contains_key(thread_id) <==> (events.len() == 0 || events.last() is Delta)
            &&& after.turns.contains_key(thread_id) ==> after.turns[thread_id]
                == server.turns[thread_id]
        }),
    decreases messages.len(),
{
    if messages.len() > 0 {
        let (message, now) = (messages.first(), times.first());
        let next = after_delivery(server, message, now);
        let (tail, later) = (messages.drop_first(), times.drop_first());
        let events = events_delivered(server, thread_id, messages, times);
        let rest = events_delivered(next, thread_id, tail, later);
        let reported = events_on(thread_id, messages);
        match event_on(thread_id, message) {
            Some(event) => {
                assert(server.dispatched(message, now) == (ReceivedView::<P>::Deliver {
                    thread_id,
                    event,
                    last: is_last(event),
                }));
                assert(events == seq![event] + rest);
                assert(reported.first() == event);
                assert(reported.drop_first() =~= events_on(thread_id, tail));
                if is_last(event) {
                    law_ended_turns_get_nothing(next, thread_id, tail, later);
                    assert(events =~= seq![event]);
                } else {
                    law_turns_run_to_their_end(next, thread_id, tail, later);
                    assert forall|i: int| 0 <= i < events.len() - 1 implies #[trigger] events[i] is Delta by {
                        if i > 0 {
                            assert(events[i] == rest[i - 1]);
                        }
                    }
                    if rest.len() > 0 {
                        assert(events.last() == rest.last());
                    } else {
                        assert(events.last() == event);
                    }
                }
            },
            None => {
                assert(server.dispatched(message, now) matches ReceivedView::Deliver {
                    thread_id: thread,
                    ..
                } ==> thread != thread_id);
                law_turns_run_to_their_end(next, thread_id, tail, later);
            },
        }
    }
}

/// A thread without a turn gets nothing, and messages start none there.
pub proof fn law_ended_turns_get_nothing<P, T>(
    server: AppServerView<P, T>,
    thread_id: Seq<char>,
    messages: Seq<JsonView>,
    times: Seq<u64>,
)
    requires
        !server.turns.contains_key(thread_id),
    ensures
        events_delivered(server, thread_id, messages, times) == Seq::<TurnEventView>::empty(),
        !after_deliveries(server, messages, times).turns.contains_key(thread_id),
    decreases messages.len(),
{
    if messages.len() > 0 {
        law_ended_turns_get_nothing(
            after_delivery(server, messages.first(), times.first()),
            thread_id,
            messages.drop_first(),
            times.drop_first(),
        );
    }
}

/// A line that is malformed, or whose message is for nobody, changes nothing.
pub proof fn law_stray_lines_change_nothing<P, T>(
    server: AppServerView<P, T>,
    line: Seq<char>,
    now: u64,
)
    requires
        server.received(line, now) is Malformed || server.received(line, now) is Ignored,
    ensures
        server.after_line(line) == server,
{
    assert(server.after_line(line).pending =~= server.pending);
}

/// A turn that the app-server refuses to start leaves no trace, where none ran on its thread
/// before.
pub proof fn law_refused_turns_leave_no_trace<P, T>(
    server: AppServerView<P, T>,
    start: TurnStartView<T>,
    thread: JsonView,
    error: AppServerErrorView,
)
    requires
        start is Thread,
        thread.text_in("thread"@, "id"@) is Some,
        !server.turns.contains_key(thread.text_in("thread"@, "id"@)->0),
    ensures
        ({
            let asked = server.after_outcome(start, Ok(thread));
            let next = TurnStartView::<T>::Turn {
                thread_id: thread.text_in("thread"@, "id"@)->0,
            };
            &&& server.resumed(start, Ok(thread)) matches TurnStepView::Call(s, _) && s == next
            &&& asked.resumed(next, Err(error)) == TurnStepView::<T>::Failed(error)
            &&& asked.after_outcome(next, Err(error)) == server
        }),
{
    let thread_id = thread.text_in("thread"@, "id"@)->0;
    assert(server.turns.insert(thread_id, start->events).remove(thread_id) =~= server.turns);
}

/// A turn that the app-server starts runs on its thread under the name it was given, from
/// the moment the thread is known: no event between the two replies is lost.
pub proof fn law_started_turns_are_listened_to<P, T>(
    server: AppServerView<P, T>,
    start: TurnStartView<T>,
    thread: JsonView,
    turn: JsonView,
)
    requires
        start is Thread,
        thread.text_in("thread"@, "id"@) is Some,
        turn.text_in("turn"@, "id"@) is Some,
    ensures
        ({
            let thread_id = thread.text_in("thread"@, "id"@)->0;
            let asked = server.after_outcome(start, Ok(thread));
            let next = TurnStartView::<T>::Turn { thread_id };
            &&& server.resumed(start, Ok(thread)) matches TurnStepView::Call(s, _) && s == next
            &&& asked == server.with_turn(thread_id, start->events)
            &&& asked.resumed(next, Ok(turn)) == (TurnStepView::<T>::Started {
                thread_id,
                turn_id: turn.text_in("turn"@, "id"@)->0,
            })
            &&& asked.after_outcome(next, Ok(turn)) == asked
        }),
{
}

} // verus!
