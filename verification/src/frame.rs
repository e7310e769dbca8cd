//! Frames of an event stream to the client.
use crate::codec::{json_text, to_text};
use crate::json::{Json, JsonView};
use vstd::prelude::*;
use vstd::string::*;

verus! {

/// A server-sent event.
#[derive(Debug)]
pub enum Frame {
    /// A value without an event name.
    Data(Json),
    /// A value under an event name.
    Event { name: &'static str, data: Json },
    /// The mark that nothing follows.
    Done,
}

/// The content of a [`Frame`].
#[verifier::ext_equal]
pub enum FrameView {
    Data(JsonView),
    Event { name: Seq<char>, data: JsonView },
    Done,
}

impl View for Frame {
    type V = FrameView;

    open spec fn view(&self) -> FrameView {
        match self {
            Frame::Data(data) => FrameView::Data(data@),
            Frame::Event { name, data } => FrameView::Event { name: name@, data: data@ },
            Frame::Done => FrameView::Done,
        }
    }
}

pub open spec fn frames_view(frames: Seq<Frame>) -> Seq<FrameView> {
    frames.map_values(|frame: Frame| frame@)
}

impl FrameView {
    /// The text in the data field of the event.
    pub open spec fn data_text(self) -> Seq<char> {
        match self {
            FrameView::Data(data) => json_text(data),
            FrameView::Event { data, .. } => json_text(data),
            FrameView::Done => "[DONE]"@,
        }
    }
}

impl Frame {
    /// The name of the event, if it has one.
    pub fn event(&self) -> (r: Option<&'static str>)
        ensures
            match r {
                Some(name) => self@ matches FrameView::Event { name: n, .. } && n == name@,
                None => !(self@ is Event),
            },
    {
        match self {
            Frame::Event { name, .. } => Some(*name),
            _ => None,
        }
    }

    /// The text in the data field of the event. It holds no control character: it is one
    /// line.
    pub fn data(&self) -> (r: String)
        ensures
            r@ == self@.data_text(),
            forall|i: int| 0 <= i < r@.len() ==> r@[i] >= ' ',
    {
        proof {
            reveal_strlit("[DONE]");
        }
        match self {
            Frame::Data(data) => to_text(data),
            Frame::Event { data, .. } => to_text(data),
            Frame::Done => "[DONE]".to_owned(),
        }
    }
}

/// What a stream has to do after an input: cancel the turn where asked to, then send the
/// frames. Where a frame cannot be sent and the stream is not finished, the client is gone.
#[derive(Debug)]
pub struct StreamOutput {
    pub interrupt: bool,
    pub frames: Vec<Frame>,
    pub finished: bool,
}

/// The content of a [`StreamOutput`].
#[verifier::ext_equal]
pub struct StreamOutputView {
    pub interrupt: bool,
    pub frames: Seq<FrameView>,
    pub finished: bool,
}

impl View for StreamOutput {
    type V = StreamOutputView;

    open spec fn view(&self) -> StreamOutputView {
        StreamOutputView {
            interrupt: self.interrupt,
            frames: frames_view(self.frames@),
            finished: self.finished,
        }
    }
}

} // verus!
