use vstd::prelude::*;
use crate::event::{ChatCompletionEvent, ChatCompletionMessage, ChatCompletionMessageType,
    EventModel, views_of};
use crate::frame::{decode_frame, field_str, frame_events, frame_of, frame_reason, FrameFields};
use crate::strings::str_eq;

verus! {

/// One frame of the raw SSE stream, as the transport hands it over: the
/// connection-established signal, or a named event with its data payload.
#[derive(Debug, Clone)]
pub enum SseFrame {
    Open,
    Message { event: String, data: String },
}

/// Mathematical image of one raw SSE frame.
pub enum SseFrameModel {
    Open,
    Message { event: Seq<char>, data: Seq<char> },
}

impl View for SseFrame {
    type V = SseFrameModel;

    open spec fn view(&self) -> SseFrameModel {
        match self {
            SseFrame::Open => SseFrameModel::Open,
            SseFrame::Message { event, data } => SseFrameModel::Message {
                event: event@,
                data: data@,
            },
        }
    }
}

/// The views of a sequence of raw frames, in order.
pub open spec fn models_of(s: Seq<SseFrame>) -> Seq<SseFrameModel> {
    s.map_values(|f: SseFrame| f@)
}

/// The fragments one raw frame contributes: an open signal and frames under
/// any event name but `message` contribute nothing, a `message` frame whose
/// payload does not parse is discarded, and a parsed payload contributes its
/// classified fragments.
pub open spec fn sse_events(s: SseFrameModel) -> Seq<EventModel> {
    match s {
        SseFrameModel::Open => Seq::<EventModel>::empty(),
        SseFrameModel::Message { event, data } => {
            if event != "message"@ {
                Seq::<EventModel>::empty()
            } else {
                match frame_of(data) {
                    None => Seq::<EventModel>::empty(),
                    Some(f) => frame_events(f),
                }
            }
        },
    }
}

/// The running finish reason after one raw frame.
pub open spec fn sse_reason(s: SseFrameModel, prev: Seq<char>) -> Seq<char> {
    match s {
        SseFrameModel::Open => prev,
        SseFrameModel::Message { event, data } => {
            if event != "message"@ {
                prev
            } else {
                match frame_of(data) {
                    None => prev,
                    Some(f) => frame_reason(f, prev),
                }
            }
        },
    }
}

/// All fragments a finished sequence of raw frames contributes, in arrival
/// order.
pub open spec fn stream_events(frames: Seq<SseFrameModel>) -> Seq<EventModel>
    decreases frames.len(),
{
    if frames.len() == 0 {
        Seq::<EventModel>::empty()
    } else {
        stream_events(frames.drop_last()) + sse_events(frames.last())
    }
}

/// The finish reason after a sequence of raw frames, starting from `init`.
pub open spec fn stream_reason_from(frames: Seq<SseFrameModel>, init: Seq<char>) -> Seq<char>
    decreases frames.len(),
{
    if frames.len() == 0 {
        init
    } else {
        sse_reason(frames.last(), stream_reason_from(frames.drop_last(), init))
    }
}

/// The finish reason a cleanly ended stream reports: the last observed
/// `stopReason`, defaulting to `stop` when none was ever observed.
pub open spec fn stream_reason(frames: Seq<SseFrameModel>) -> Seq<char> {
    stream_reason_from(frames, "stop"@)
}

/// The streaming state machine of the translation loop.  The transport feeds
/// it one raw frame at a time and forwards whatever events come back; its
/// only state is the running finish reason.
#[derive(Debug, Clone)]
pub struct Translator {
    finish_reason: String,
}

impl View for Translator {
    type V = Seq<char>;

    closed spec fn view(&self) -> Seq<char> {
        self.finish_reason@
    }
}

impl Translator {
    /// A fresh translator, whose finish reason is the default `stop`.
    pub fn new() -> (t: Translator)
        ensures
            t@ == "stop"@,
    {
        Translator { finish_reason: "stop".to_owned() }
    }

    /// Classifies one decoded frame: returns the fragments it emits and
    /// updates the running finish reason.
    fn apply_fields(&mut self, f: &FrameFields) -> (events: Vec<ChatCompletionEvent>)
        ensures
            views_of(events@) == frame_events(*f),
            final(self)@ == frame_reason(*f, old(self)@),
    {
        let empty = String::new();
        let mut events: Vec<ChatCompletionEvent> = Vec::new();
        let kind: &String = match &f.kind {
            Some(k) => k,
            None => &empty,
        };
        proof {
            assert(kind@ == field_str(f.kind));
        }
        if str_eq(kind.as_str(), "think") {
            let content: &String = match &f.content {
                Some(c) => c,
                None => &empty,
            };
            proof {
                assert(content@ == field_str(f.content));
            }
            if !content.as_str().is_empty() {
                events.push(ChatCompletionEvent::Message(ChatCompletionMessage {
                    kind: ChatCompletionMessageType::Think,
                    text: content.clone(),
                }));
            }
        } else if str_eq(kind.as_str(), "text") {
            let msg: &String = match &f.msg {
                Some(m) => m,
                None => &empty,
            };
            proof {
                assert(msg@ == field_str(f.msg));
            }
            events.push(ChatCompletionEvent::Message(ChatCompletionMessage {
                kind: ChatCompletionMessageType::Msg,
                text: msg.clone(),
            }));
        } else {
            let stop: &String = match &f.stop_reason {
                Some(s) => s,
                None => &empty,
            };
            proof {
                assert(stop@ == field_str(f.stop_reason));
            }
            if !stop.as_str().is_empty() {
                self.finish_reason = stop.clone();
            }
        }
        proof {
            assert(views_of(events@) =~= frame_events(*f));
        }
        events
    }

    /// One step of the streaming loop: takes the next raw frame and returns
    /// the fragments to forward, in order.  Frames under other event names,
    /// open signals and unparseable payloads are discarded without ending
    /// the stream.
    pub fn on_frame(&mut self, frame: &SseFrame) -> (events: Vec<ChatCompletionEvent>)
        ensures
            views_of(events@) == sse_events(frame@),
            final(self)@ == sse_reason(frame@, old(self)@),
    {
        let events: Vec<ChatCompletionEvent> = Vec::new();
        proof {
            assert(views_of(events@) =~= Seq::<EventModel>::empty());
        }
        match frame {
            SseFrame::Open => events,
            SseFrame::Message { event, data } => {
                if !str_eq(event.as_str(), "message") {
                    return events;
                }
                match decode_frame(data.as_str()) {
                    None => events,
                    Some(f) => self.apply_fields(&f),
                }
            },
        }
    }

    /// Ends the stream cleanly: the single terminal event, carrying the
    /// last observed finish reason.
    pub fn finish(self) -> (e: ChatCompletionEvent)
        ensures
            e@ == (EventModel::Finish { reason: self@ }),
    {
        ChatCompletionEvent::Finish(self.finish_reason)
    }
}

/// Runs the whole translation loop over a finished sequence of raw frames:
/// every classified fragment in arrival order and, when the stream ended
/// cleanly, exactly one terminal finish event after them.  On an abnormal
/// end no finish event is appended: the consumer sees the fragments alone.
pub fn translate_stream(frames: &Vec<SseFrame>, clean_end: bool) -> (out: Vec<
    ChatCompletionEvent,
>)
    ensures
        views_of(out@) == stream_events(models_of(frames@)) + (if clean_end {
            seq![(EventModel::Finish { reason: stream_reason(models_of(frames@)) })]
        } else {
            Seq::<EventModel>::empty()
        }),
{
    let mut t = Translator::new();
    let mut out: Vec<ChatCompletionEvent> = Vec::new();
    let mut i: usize = 0;
    while i < frames.len()
        invariant
            i <= frames.len(),
            views_of(out@) == stream_events(models_of(frames@).take(i as int)),
            t@ == stream_reason_from(models_of(frames@).take(i as int), "stop"@),
        decreases frames.len() - i,
    {
        let mut events = t.on_frame(&frames[i]);
        out.append(&mut events);
        proof {
            let ms = models_of(frames@);
            assert(ms.take(i + 1).drop_last() =~= ms.take(i as int));
            assert(ms.take(i + 1).last() == ms[i as int]);
            assert(views_of(out@) =~= stream_events(ms.take(i + 1)));
        }
        i += 1;
    }
    proof {
        assert(models_of(frames@).take(frames@.len() as int) =~= models_of(frames@));
    }
    if clean_end {
        out.push(t.finish());
        proof {
            assert(views_of(out@) =~= stream_events(models_of(frames@)) + seq![
                (EventModel::Finish { reason: stream_reason(models_of(frames@)) }),
            ]);
        }
    } else {
        proof {
            assert(views_of(out@) =~= stream_events(models_of(frames@)) + Seq::<
                EventModel,
            >::empty());
        }
    }
    out
}

} // verus!
