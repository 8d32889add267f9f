use yuanbao_chat2api::event::{ChatCompletionEvent, ChatCompletionMessageType};
use yuanbao_chat2api::translate::{translate_stream, SseFrame, Translator};

fn message_frame(data: &str) -> SseFrame {
    SseFrame::Message {
        event: "message".to_string(),
        data: data.to_string(),
    }
}

fn think_frame(content: &str) -> SseFrame {
    message_frame(&format!("{{\"type\":\"think\",\"content\":\"{}\"}}", content))
}

fn text_frame(msg: &str) -> SseFrame {
    message_frame(&format!("{{\"type\":\"text\",\"msg\":\"{}\"}}", msg))
}

fn expect_fragment(e: &ChatCompletionEvent, kind: ChatCompletionMessageType, text: &str) {
    match e {
        ChatCompletionEvent::Message(m) => {
            assert_eq!(m.kind, kind);
            assert_eq!(m.text, text);
        }
        other => panic!("expected a content fragment, got {:?}", other),
    }
}

fn expect_finish(e: &ChatCompletionEvent, reason: &str) {
    match e {
        ChatCompletionEvent::Finish(r) => assert_eq!(r, reason),
        other => panic!("expected a finish event, got {:?}", other),
    }
}

#[test]
fn think_frame_twice_yields_two_identical_fragments() {
    let frames = vec![think_frame("abc"), think_frame("abc")];
    let out = translate_stream(&frames, false);
    assert_eq!(out.len(), 2);
    expect_fragment(&out[0], ChatCompletionMessageType::Think, "abc");
    expect_fragment(&out[1], ChatCompletionMessageType::Think, "abc");
}

#[test]
fn empty_think_is_suppressed() {
    let frames = vec![think_frame("")];
    let out = translate_stream(&frames, false);
    assert!(out.is_empty());
}

#[test]
fn absent_think_content_is_suppressed() {
    let frames = vec![message_frame("{\"type\":\"think\"}")];
    let out = translate_stream(&frames, false);
    assert!(out.is_empty());
}

#[test]
fn empty_text_is_forwarded() {
    let frames = vec![text_frame("")];
    let out = translate_stream(&frames, false);
    assert_eq!(out.len(), 1);
    expect_fragment(&out[0], ChatCompletionMessageType::Msg, "");
}

#[test]
fn finish_defaults_to_stop() {
    let frames = vec![think_frame("t"), text_frame("a")];
    let out = translate_stream(&frames, true);
    assert_eq!(out.len(), 3);
    expect_finish(&out[2], "stop");
}

#[test]
fn finish_reason_is_overridden_and_kept() {
    let frames = vec![
        text_frame("a"),
        message_frame("{\"type\":\"done\",\"stopReason\":\"length\"}"),
        text_frame("b"),
    ];
    let out = translate_stream(&frames, true);
    assert_eq!(out.len(), 3);
    expect_fragment(&out[0], ChatCompletionMessageType::Msg, "a");
    expect_fragment(&out[1], ChatCompletionMessageType::Msg, "b");
    expect_finish(&out[2], "length");
}

#[test]
fn empty_stop_reason_does_not_override() {
    let frames = vec![message_frame("{\"type\":\"done\",\"stopReason\":\"\"}")];
    let out = translate_stream(&frames, true);
    assert_eq!(out.len(), 1);
    expect_finish(&out[0], "stop");
}

#[test]
fn malformed_frame_is_skipped() {
    let frames = vec![
        text_frame("a"),
        message_frame("{not json at all"),
        text_frame("b"),
    ];
    let out = translate_stream(&frames, true);
    assert_eq!(out.len(), 3);
    expect_fragment(&out[0], ChatCompletionMessageType::Msg, "a");
    expect_fragment(&out[1], ChatCompletionMessageType::Msg, "b");
    expect_finish(&out[2], "stop");
}

#[test]
fn abnormal_end_emits_no_finish() {
    let frames = vec![think_frame("t"), text_frame("a")];
    let out = translate_stream(&frames, false);
    assert_eq!(out.len(), 2);
    for e in &out {
        assert!(matches!(e, ChatCompletionEvent::Message(_)));
    }
}

#[test]
fn interleaving_order_is_preserved() {
    let frames = vec![
        think_frame("t1"),
        text_frame("a1"),
        think_frame("t2"),
        text_frame("a2"),
        text_frame("a3"),
    ];
    let out = translate_stream(&frames, false);
    assert_eq!(out.len(), 5);
    expect_fragment(&out[0], ChatCompletionMessageType::Think, "t1");
    expect_fragment(&out[1], ChatCompletionMessageType::Msg, "a1");
    expect_fragment(&out[2], ChatCompletionMessageType::Think, "t2");
    expect_fragment(&out[3], ChatCompletionMessageType::Msg, "a2");
    expect_fragment(&out[4], ChatCompletionMessageType::Msg, "a3");
}

#[test]
fn open_and_other_event_names_are_discarded() {
    let frames = vec![
        SseFrame::Open,
        SseFrame::Message {
            event: "ping".to_string(),
            data: "{\"type\":\"text\",\"msg\":\"x\"}".to_string(),
        },
        text_frame("y"),
    ];
    let out = translate_stream(&frames, true);
    assert_eq!(out.len(), 2);
    expect_fragment(&out[0], ChatCompletionMessageType::Msg, "y");
    expect_finish(&out[1], "stop");
}

#[test]
fn non_string_fields_read_as_absent() {
    let frames = vec![
        message_frame("{\"type\":\"text\",\"msg\":5}"),
        message_frame("{\"type\":7,\"stopReason\":\"x\"}"),
    ];
    let out = translate_stream(&frames, true);
    assert_eq!(out.len(), 2);
    expect_fragment(&out[0], ChatCompletionMessageType::Msg, "");
    expect_finish(&out[1], "x");
}

#[test]
fn step_by_step_translator_matches_batch() {
    let mut t = Translator::new();
    let first = t.on_frame(&think_frame("hello"));
    assert_eq!(first.len(), 1);
    expect_fragment(&first[0], ChatCompletionMessageType::Think, "hello");
    let second = t.on_frame(&message_frame("{\"type\":\"end\",\"stopReason\":\"length\"}"));
    assert!(second.is_empty());
    expect_finish(&t.finish(), "length");
}
