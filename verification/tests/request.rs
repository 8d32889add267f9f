use yuanbao_chat2api::error::ChatError;
use yuanbao_chat2api::message::{ChatMessage, ChatMessages};
use yuanbao_chat2api::model::ChatModel;
use yuanbao_chat2api::upstream::{
    build_body, build_completion_body, chat_url, cookie_value, json_escape, origin_value,
    referer_value, user_agent_value, ChatCompletionRequest, Config,
};

fn msg(role: &str, content: &str) -> ChatMessage {
    ChatMessage {
        role: role.to_string(),
        content: Some(content.to_string()),
        reasoning_content: None,
    }
}

#[test]
fn escape_passes_plain_text_through() {
    assert_eq!(json_escape("hello world"), "hello world");
}

#[test]
fn escape_handles_quotes_backslashes_and_controls() {
    assert_eq!(
        json_escape("a\"b\\c\nd\re\tf\u{8}g\u{c}h"),
        "a\\\"b\\\\c\\nd\\re\\tf\\bg\\fh"
    );
    assert_eq!(json_escape("\u{1}\u{1f}"), "\\u0001\\u001f");
}

#[test]
fn body_embeds_prompt_twice_and_model_id() {
    let body = build_body("hi", "agent-1", ChatModel::DeepSeekR1);
    assert_eq!(
        body,
        "{\"model\":\"gpt_175B_0404\",\"prompt\":\"hi\",\"plugin\":\"Adaptive\",\
         \"displayPrompt\":\"hi\",\"displayPromptType\":1,\"options\":{\"imageIntention\":\
         {\"needIntentionModel\":true,\"backendUpdateFlag\":2,\"intentionStatus\":true}},\
         \"multimedia\":[],\"agentId\":\"agent-1\",\"supportHint\":1,\"version\":\"v2\",\
         \"chatModelId\":\"deep_seek\"}"
    );
}

#[test]
fn body_escapes_the_prompt() {
    let body = build_body("say \"hi\"\n", "a", ChatModel::DeepSeekV3);
    assert!(body.contains("\"prompt\":\"say \\\"hi\\\"\\n\""));
    assert!(body.contains("\"displayPrompt\":\"say \\\"hi\\\"\\n\""));
    assert!(body.contains("\"chatModelId\":\"deep_seek_v3\""));
}

#[test]
fn completion_body_renders_the_conversation() {
    let request = ChatCompletionRequest {
        messages: ChatMessages(vec![msg("user", "hi")]),
        chat_model: ChatModel::DeepSeekR1,
    };
    let body = build_completion_body(&request, "agent-1").unwrap();
    assert_eq!(body, build_body("hi", "agent-1", ChatModel::DeepSeekR1));
}

#[test]
fn completion_body_rejects_an_empty_conversation() {
    let request = ChatCompletionRequest {
        messages: ChatMessages(vec![]),
        chat_model: ChatModel::DeepSeekR1,
    };
    assert!(matches!(
        build_completion_body(&request, "agent-1"),
        Err(ChatError::EmptyMessages)
    ));
}

#[test]
fn url_and_header_values() {
    assert_eq!(
        chat_url("abc-123"),
        "https://yuanbao.tencent.com/api/chat/abc-123"
    );
    assert_eq!(
        cookie_value("u1", "t1"),
        "hy_source=web; hy_user=u1; hy_token=t1"
    );
    assert_eq!(
        referer_value("agent-1"),
        "https://yuanbao.tencent.com/chat/agent-1"
    );
    assert_eq!(origin_value(), "https://yuanbao.tencent.com");
    assert!(user_agent_value().starts_with("Mozilla/5.0"));
}

#[test]
fn config_resolves_its_fixed_conversation() {
    let config = Config {
        key: "k".to_string(),
        agent_id: "a".to_string(),
        hy_user: "u".to_string(),
        hy_token: "t".to_string(),
        port: 8080,
        conversation_id: "conv-1".to_string(),
    };
    assert_eq!(config.conversation(), "conv-1");
}
