use vstd::prelude::*;
use crate::event::{ChatCompletionMessageType, EventModel};
use crate::frame::{field_str, frame_events, frame_of, FrameFields};
use crate::translate::{sse_events, sse_reason, stream_events, stream_reason, stream_reason_from,
    SseFrameModel};

verus! {

/// Law: translation distributes over splitting the raw stream, so the
/// fragments of any interleaving of frames appear in exactly their arrival
/// order — no reordering and no batching across frame boundaries.
pub proof fn lemma_stream_events_append(a: Seq<SseFrameModel>, b: Seq<SseFrameModel>)
    ensures
        stream_events(a + b) == stream_events(a) + stream_events(b),
    decreases b.len(),
{
    if b.len() == 0 {
        assert(a + b =~= a);
        assert(stream_events(a) + stream_events(b) =~= stream_events(a));
    } else {
        lemma_stream_events_append(a, b.drop_last());
        assert((a + b).drop_last() =~= a + b.drop_last());
        assert((a + b).last() == b.last());
        assert(stream_events(a) + stream_events(b.drop_last()) + sse_events(b.last()) =~= stream_events(
            a,
        ) + stream_events(b));
    }
}

/// Law: feeding the same well-formed `think` frame twice yields two thinking
/// fragments with identical text, in order — classification has no memory of
/// content frames.
pub proof fn lemma_think_frame_repeated(event: Seq<char>, data: Seq<char>, f: FrameFields)
    requires
        event == "message"@,
        frame_of(data) == Some(f),
        field_str(f.kind) == "think"@,
        field_str(f.content).len() > 0,
    ensures
        stream_events(
            seq![
                (SseFrameModel::Message { event, data }),
                (SseFrameModel::Message { event, data }),
            ],
        ) == seq![
            (EventModel::Message {
                kind: ChatCompletionMessageType::Think,
                text: field_str(f.content),
            }),
            (EventModel::Message {
                kind: ChatCompletionMessageType::Think,
                text: field_str(f.content),
            }),
        ],
{
    let s = SseFrameModel::Message { event, data };
    let ev = EventModel::Message {
        kind: ChatCompletionMessageType::Think,
        text: field_str(f.content),
    };
    let two = seq![s, s];
    assert(two.drop_last() =~= seq![s]);
    assert(seq![s].drop_last() =~= Seq::<SseFrameModel>::empty());
    assert(seq![s].last() == s);
    assert(two.last() == s);
    assert(sse_events(s) =~= seq![ev]);
    assert(stream_events(Seq::<SseFrameModel>::empty()) == Seq::<EventModel>::empty());
    assert(stream_events(seq![s]) =~= Seq::<EventModel>::empty() + seq![ev]);
    assert(stream_events(seq![s]) =~= seq![ev]);
    assert(stream_events(two) =~= seq![ev, ev]);
}

/// Law: a `think` frame with empty content contributes nothing — empty
/// thinking heart-beats are suppressed.
pub proof fn lemma_empty_think_suppressed(f: FrameFields)
    requires
        field_str(f.kind) == "think"@,
        field_str(f.content).len() == 0,
    ensures
        frame_events(f) == Seq::<EventModel>::empty(),
{
}

/// Law: a `text` frame with an empty (or absent) message still contributes
/// one answer fragment holding the empty string — unlike thinking frames,
/// empty answer fragments are forwarded.
pub proof fn lemma_empty_text_forwarded(f: FrameFields)
    requires
        field_str(f.kind) == "text"@,
        field_str(f.msg).len() == 0,
    ensures
        frame_events(f) == seq![
            (EventModel::Message {
                kind: ChatCompletionMessageType::Msg,
                text: Seq::<char>::empty(),
            }),
        ],
{
    reveal_strlit("think");
    reveal_strlit("text");
    assert("think"@.len() == 5);
    assert("text"@.len() == 4);
    assert(field_str(f.msg) =~= Seq::<char>::empty());
    assert(frame_events(f) =~= seq![
        (EventModel::Message { kind: ChatCompletionMessageType::Msg, text: field_str(f.msg) }),
    ]);
}

/// Whether one raw frame overwrites the running finish reason: only a
/// parsed `message` frame that is neither `think` nor `text` and carries a
/// non-empty `stopReason` does.
pub open spec fn sets_reason(s: SseFrameModel) -> bool {
    match s {
        SseFrameModel::Open => false,
        SseFrameModel::Message { event, data } => event == "message"@ && (match frame_of(data) {
            None => false,
            Some(f) => field_str(f.kind) != "think"@ && field_str(f.kind) != "text"@ && field_str(
                f.stop_reason,
            ).len() > 0,
        }),
    }
}

/// A frame that does not set the reason leaves it exactly as it was.
pub proof fn lemma_reason_preserved(s: SseFrameModel, prev: Seq<char>)
    requires
        !sets_reason(s),
    ensures
        sse_reason(s, prev) == prev,
{
}

/// A stream in which no frame sets a reason leaves the running reason at its
/// starting value.
pub proof fn lemma_reason_unchanged(frames: Seq<SseFrameModel>, init: Seq<char>)
    requires
        forall|i: int| 0 <= i < frames.len() ==> !sets_reason(#[trigger] frames[i]),
    ensures
        stream_reason_from(frames, init) == init,
    decreases frames.len(),
{
    if frames.len() > 0 {
        let head = frames.drop_last();
        assert(forall|i: int| 0 <= i < head.len() ==> !sets_reason(#[trigger] head[i]));
        lemma_reason_unchanged(head, init);
        lemma_reason_preserved(frames.last(), init);
    }
}

/// Law: a stream in which no frame ever sets a stop reason reports the
/// default finish reason `stop` at its clean end.
pub proof fn lemma_finish_defaults(frames: Seq<SseFrameModel>)
    requires
        forall|i: int| 0 <= i < frames.len() ==> !sets_reason(#[trigger] frames[i]),
    ensures
        stream_reason(frames) == "stop"@,
{
    lemma_reason_unchanged(frames, "stop"@);
}

/// The running reason folds over concatenation: the second part continues
/// from wherever the first part left off.
pub proof fn lemma_reason_append(a: Seq<SseFrameModel>, b: Seq<SseFrameModel>, init: Seq<char>)
    ensures
        stream_reason_from(a + b, init) == stream_reason_from(b, stream_reason_from(a, init)),
    decreases b.len(),
{
    if b.len() == 0 {
        assert(a + b =~= a);
    } else {
        lemma_reason_append(a, b.drop_last(), init);
        assert((a + b).drop_last() =~= a + b.drop_last());
        assert((a + b).last() == b.last());
    }
}

/// Law: once a frame sets a stop reason, that reason is what a clean end
/// reports, however many non-terminal frames arrive after it.
pub proof fn lemma_finish_override(
    a: Seq<SseFrameModel>,
    event: Seq<char>,
    data: Seq<char>,
    f: FrameFields,
    b: Seq<SseFrameModel>,
)
    requires
        event == "message"@,
        frame_of(data) == Some(f),
        field_str(f.kind) != "think"@,
        field_str(f.kind) != "text"@,
        field_str(f.stop_reason).len() > 0,
        forall|i: int| 0 <= i < b.len() ==> !sets_reason(#[trigger] b[i]),
    ensures
        stream_reason(a + seq![(SseFrameModel::Message { event, data })] + b) == field_str(
            f.stop_reason,
        ),
{
    let s = SseFrameModel::Message { event, data };
    let mid = a + seq![s];
    lemma_reason_append(mid, b, "stop"@);
    lemma_reason_unchanged(b, stream_reason_from(mid, "stop"@));
    assert(mid.drop_last() =~= a);
    assert(mid.last() == s);
    assert(sse_reason(s, stream_reason_from(a, "stop"@)) == field_str(f.stop_reason));
}

/// Law: a `message` frame whose payload is not well-formed JSON contributes
/// no fragment and leaves the running reason alone — one malformed frame
/// never aborts the stream.
pub proof fn lemma_malformed_frame_skipped(event: Seq<char>, data: Seq<char>, prev: Seq<char>)
    requires
        frame_of(data) is None,
    ensures
        sse_events((SseFrameModel::Message { event, data })) == Seq::<EventModel>::empty(),
        sse_reason((SseFrameModel::Message { event, data }), prev) == prev,
{
}

/// Every fragment a single raw frame contributes is a content fragment.
proof fn lemma_sse_events_fragments(s: SseFrameModel)
    ensures
        forall|i: int|
            0 <= i < sse_events(s).len() ==> (#[trigger] sse_events(s)[i]) matches EventModel::Message { .. },
{
}

/// Law: the frames of a stream never contribute a finish fragment, so a
/// stream that ends abnormally — its channel closing without a clean end —
/// delivers the fragments classified so far and no finish at all.
pub proof fn lemma_no_finish_fragment(frames: Seq<SseFrameModel>)
    ensures
        forall|i: int|
            0 <= i < stream_events(frames).len() ==> (#[trigger] stream_events(frames)[i]) matches EventModel::Message { .. },
    decreases frames.len(),
{
    if frames.len() > 0 {
        lemma_no_finish_fragment(frames.drop_last());
        lemma_sse_events_fragments(frames.last());
        assert forall|i: int| 0 <= i < stream_events(frames).len() implies (
        #[trigger] stream_events(frames)[i]) matches EventModel::Message { .. } by {
            let prefix = stream_events(frames.drop_last());
            if i < prefix.len() {
                assert(stream_events(frames)[i] == prefix[i]);
            } else {
                assert(stream_events(frames)[i] == sse_events(frames.last())[i - prefix.len()]);
            }
        }
    }
}

} // verus!
