use vstd::prelude::*;

verus! {

/// Which kind of content fragment a `Message` event carries: the upstream's
/// thinking text or the answer text itself.
#[derive(Clone, Copy, Debug, PartialEq, Eq, Structural)]
pub enum ChatCompletionMessageType {
    Think,
    Msg,
}

/// One incremental content fragment of a completion.
#[derive(Debug, Clone)]
pub struct ChatCompletionMessage {
    pub kind: ChatCompletionMessageType,
    pub text: String,
}

/// A semantic chat event, as the translator emits it: a content fragment, an
/// error report, or the single terminal finish with its reason.
#[derive(Debug, Clone)]
pub enum ChatCompletionEvent {
    Message(ChatCompletionMessage),
    Error(String),
    Finish(String),
}

/// Mathematical image of a semantic chat event: the payload strings as
/// character sequences.
pub enum EventModel {
    Message { kind: ChatCompletionMessageType, text: Seq<char> },
    Error { message: Seq<char> },
    Finish { reason: Seq<char> },
}

impl View for ChatCompletionEvent {
    type V = EventModel;

    open spec fn view(&self) -> EventModel {
        match self {
            ChatCompletionEvent::Message(m) => EventModel::Message { kind: m.kind, text: m.text@ },
            ChatCompletionEvent::Error(e) => EventModel::Error { message: e@ },
            ChatCompletionEvent::Finish(r) => EventModel::Finish { reason: r@ },
        }
    }
}

/// The views of a sequence of events, in order.
pub open spec fn views_of(s: Seq<ChatCompletionEvent>) -> Seq<EventModel> {
    s.map_values(|e: ChatCompletionEvent| e@)
}

} // verus!
