use vstd::prelude::*;
use crate::event::{ChatCompletionMessageType, EventModel};

verus! {

/// The fields of one upstream frame payload that the translator reads.  Each
/// field is present exactly when the payload's JSON object carries that key
/// with a string value.
#[derive(Debug, Clone)]
pub struct FrameFields {
    /// The `type` discriminator of the frame.
    pub kind: Option<String>,
    /// The thinking text of a `think` frame.
    pub content: Option<String>,
    /// The answer text of a `text` frame.
    pub msg: Option<String>,
    /// The terminal-state signal a non-content frame may carry.
    pub stop_reason: Option<String>,
}

/// The decoded form of an upstream frame's JSON payload: `None` when the
/// payload is not well-formed JSON, otherwise the string fields the
/// translator reads.
pub uninterp spec fn frame_of(data: Seq<char>) -> Option<FrameFields>;

/// Relies on `serde_json::from_str` to parse the payload, and on
/// `Value::get` and `Value::as_str` to pick out the string value of each of
/// the four keys the translator reads; the result is a function of the
/// payload text alone.
#[verifier::external_body]
pub(crate) fn decode_frame(data: &str) -> (r: Option<FrameFields>)
    ensures
        r == frame_of(data@),
{
    let v: serde_json::Value = match serde_json::from_str(data) {
        Ok(v) => v,
        Err(_) => return None,
    };
    Some(FrameFields {
        kind: v.get("type").and_then(|x| x.as_str()).map(|s| s.to_string()),
        content: v.get("content").and_then(|x| x.as_str()).map(|s| s.to_string()),
        msg: v.get("msg").and_then(|x| x.as_str()).map(|s| s.to_string()),
        stop_reason: v.get("stopReason").and_then(|x| x.as_str()).map(|s| s.to_string()),
    })
}

/// The string a frame field holds, an absent field reading as empty — the
/// upstream omits keys freely, and an absent key behaves like `""`.
pub open spec fn field_str(o: Option<String>) -> Seq<char> {
    match o {
        Some(s) => s@,
        None => Seq::<char>::empty(),
    }
}

/// The fragments one decoded frame contributes to the event stream:
/// a `think` frame its thinking text unless that is empty (empty thinking
/// heart-beats are suppressed), a `text` frame its answer text always (an
/// empty answer fragment is still forwarded), any other frame nothing.
pub open spec fn frame_events(f: FrameFields) -> Seq<EventModel> {
    if field_str(f.kind) == "think"@ {
        if field_str(f.content).len() == 0 {
            Seq::<EventModel>::empty()
        } else {
            seq![
                (EventModel::Message {
                    kind: ChatCompletionMessageType::Think,
                    text: field_str(f.content),
                }),
            ]
        }
    } else if field_str(f.kind) == "text"@ {
        seq![
            (EventModel::Message {
                kind: ChatCompletionMessageType::Msg,
                text: field_str(f.msg),
            }),
        ]
    } else {
        Seq::<EventModel>::empty()
    }
}

/// The running finish reason after one decoded frame: a frame that is
/// neither `think` nor `text` overwrites it with its non-empty `stopReason`;
/// every other frame leaves it alone.
pub open spec fn frame_reason(f: FrameFields, prev: Seq<char>) -> Seq<char> {
    if field_str(f.kind) == "think"@ || field_str(f.kind) == "text"@ {
        prev
    } else if field_str(f.stop_reason).len() > 0 {
        field_str(f.stop_reason)
    } else {
        prev
    }
}

} // verus!
