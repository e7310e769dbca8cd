//! The course of a Codex turn, from its first delta to its end.
use crate::error::{ApiError, ApiErrorView};
use crate::text::same_text;
use crate::translate::string_view;
use vstd::prelude::*;
use vstd::string::*;

verus! {

/// What the app-server reports of a turn.
#[derive(Debug, PartialEq, Eq)]
pub enum TurnEvent {
    Delta(String),
    Completed { status: String, error: Option<String> },
    Error(String),
}

/// A running turn, and where its events arrive.
pub struct TurnStream<R> {
    pub thread_id: String,
    pub turn_id: String,
    pub events: R,
}

/// What can happen to whoever waits for a turn.
#[derive(Debug, PartialEq, Eq)]
pub enum TurnInput {
    Event(TurnEvent),
    /// No event will follow.
    Closed,
    /// The time allowed for the turn is over.
    TimedOut,
    /// The client is gone.
    Disconnected,
}

/// The content of a [`TurnEvent`].
pub enum TurnEventView {
    Delta(Seq<char>),
    Completed { status: Seq<char>, error: Option<Seq<char>> },
    Error(Seq<char>),
}

/// The content of a [`TurnInput`].
pub enum TurnInputView {
    Event(TurnEventView),
    Closed,
    TimedOut,
    Disconnected,
}

impl View for TurnEvent {
    type V = TurnEventView;

    open spec fn view(&self) -> TurnEventView {
        match self {
            TurnEvent::Delta(text) => TurnEventView::Delta(text@),
            TurnEvent::Completed { status, error } => TurnEventView::Completed {
                status: status@,
                error: string_view(*error),
            },
            TurnEvent::Error(message) => TurnEventView::Error(message@),
        }
    }
}

impl View for TurnInput {
    type V = TurnInputView;

    open spec fn view(&self) -> TurnInputView {
        match self {
            TurnInput::Event(event) => TurnInputView::Event(event@),
            TurnInput::Closed => TurnInputView::Closed,
            TurnInput::TimedOut => TurnInputView::TimedOut,
            TurnInput::Disconnected => TurnInputView::Disconnected,
        }
    }
}

/// What an input means for a running turn.
#[derive(Debug, PartialEq, Eq)]
pub enum Progress {
    /// More text.
    Text(String),
    /// The end, with the reason where the turn failed.
    Ended(Option<String>),
    /// Nobody is left to answer.
    Abandoned,
}

/// The content of a [`Progress`].
pub enum ProgressView {
    Text(Seq<char>),
    Ended(Option<Seq<char>>),
    Abandoned,
}

impl View for Progress {
    type V = ProgressView;

    open spec fn view(&self) -> ProgressView {
        match self {
            Progress::Text(text) => ProgressView::Text(text@),
            Progress::Ended(failure) => ProgressView::Ended(string_view(*failure)),
            Progress::Abandoned => ProgressView::Abandoned,
        }
    }
}

/// Why a turn that completed with this status failed, if it did.
pub open spec fn failure_of(status: Seq<char>, error: Option<Seq<char>>) -> Option<Seq<char>> {
    if status == "completed"@ {
        None
    } else {
        match error {
            Some(error) => Some(error),
            None => Some("Codex turn ended with status "@ + status),
        }
    }
}

impl TurnInputView {
    pub open spec fn progress(self) -> ProgressView {
        match self {
            TurnInputView::Event(TurnEventView::Delta(text)) => ProgressView::Text(text),
            TurnInputView::Event(TurnEventView::Completed { status, error }) => ProgressView::Ended(
                failure_of(status, error),
            ),
            TurnInputView::Event(TurnEventView::Error(message)) => ProgressView::Ended(
                Some(message),
            ),
            TurnInputView::Closed => ProgressView::Ended(Some("Codex event stream closed"@)),
            TurnInputView::TimedOut => ProgressView::Ended(Some("Codex turn timed out"@)),
            TurnInputView::Disconnected => ProgressView::Abandoned,
        }
    }

    /// Whether the turn has to be cancelled: it goes on, and nobody waits for it any more.
    pub open spec fn cancels(self) -> bool {
        self is TimedOut || self is Disconnected
    }
}

impl TurnInput {
    /// What this means for a running turn.
    pub fn progress(self) -> (r: Progress)
        ensures
            r@ == self@.progress(),
    {
        match self {
            TurnInput::Event(TurnEvent::Delta(text)) => Progress::Text(text),
            TurnInput::Event(TurnEvent::Completed { status, error }) => {
                if same_text(status.as_str(), "completed") {
                    Progress::Ended(None)
                } else {
                    match error {
                        Some(error) => Progress::Ended(Some(error)),
                        None => Progress::Ended(
                            Some(
                                "Codex turn ended with status ".to_owned().concat(status.as_str()),
                            ),
                        ),
                    }
                }
            },
            TurnInput::Event(TurnEvent::Error(message)) => Progress::Ended(Some(message)),
            TurnInput::Closed => Progress::Ended(Some("Codex event stream closed".to_owned())),
            TurnInput::TimedOut => Progress::Ended(Some("Codex turn timed out".to_owned())),
            TurnInput::Disconnected => Progress::Abandoned,
        }
    }

    /// Whether the turn has to be cancelled.
    pub fn cancels(&self) -> (r: bool)
        ensures
            r == self@.cancels(),
    {
        match self {
            TurnInput::TimedOut => true,
            TurnInput::Disconnected => true,
            _ => false,
        }
    }
}

/// Waits for the whole text of a turn.
#[derive(Debug)]
pub struct TurnCollector {
    text: String,
}

/// Where a [`TurnCollector`] stands.
#[derive(Debug)]
pub enum Collected {
    Pending,
    Answered(Result<String, ApiError>),
    Abandoned,
}

/// The content of a [`Collected`].
pub enum CollectedView {
    Pending,
    Answered(Result<Seq<char>, ApiErrorView>),
    Abandoned,
}

impl View for Collected {
    type V = CollectedView;

    open spec fn view(&self) -> CollectedView {
        match self {
            Collected::Pending => CollectedView::Pending,
            Collected::Answered(Ok(text)) => CollectedView::Answered(Ok(text@)),
            Collected::Answered(Err(error)) => CollectedView::Answered(Err(error@)),
            Collected::Abandoned => CollectedView::Abandoned,
        }
    }
}

impl View for TurnCollector {
    type V = Seq<char>;

    closed spec fn view(&self) -> Seq<char> {
        self.text@
    }
}

/// The text that is there after an input.
pub open spec fn collected_text(text: Seq<char>, input: TurnInputView) -> Seq<char> {
    match input.progress() {
        ProgressView::Text(delta) => text + delta,
        _ => text,
    }
}

/// Where a collector stands after an input.
pub open spec fn collected_outcome(text: Seq<char>, input: TurnInputView) -> CollectedView {
    match input.progress() {
        ProgressView::Text(_) => CollectedView::Pending,
        ProgressView::Ended(None) => CollectedView::Answered(Ok(text)),
        ProgressView::Ended(Some(failure)) => CollectedView::Answered(
            Err(ApiErrorView::server(failure)),
        ),
        ProgressView::Abandoned => CollectedView::Abandoned,
    }
}

impl TurnCollector {
    pub fn new() -> (r: TurnCollector)
        ensures
            r@ == Seq::<char>::empty(),
    {
        TurnCollector { text: String::new() }
    }

    /// Takes the next input. Where [`TurnInput::cancels`] says so of it, the turn is to be
    /// cancelled first.
    pub fn step(&mut self, input: TurnInput) -> (r: Collected)
        ensures
            final(self)@ == collected_text(old(self)@, input@),
            r@ == collected_outcome(old(self)@, input@),
    {
        match input.progress() {
            Progress::Text(delta) => {
                self.text.append(delta.as_str());
                Collected::Pending
            },
            Progress::Ended(None) => Collected::Answered(Ok(self.text.clone())),
            Progress::Ended(Some(failure)) => Collected::Answered(
                Err(ApiError::server(failure.as_str())),
            ),
            Progress::Abandoned => Collected::Abandoned,
        }
    }
}

} // verus!
