use yuanbao_chat2api::error::ChatError;
use yuanbao_chat2api::message::{ChatMessage, ChatMessages};

fn msg(role: &str, content: Option<&str>) -> ChatMessage {
    ChatMessage {
        role: role.to_string(),
        content: content.map(|c| c.to_string()),
        reasoning_content: None,
    }
}

#[test]
fn render_single_message_is_verbatim() {
    let msgs = ChatMessages(vec![msg("user", Some("hi"))]);
    assert_eq!(msgs.render().unwrap(), "hi");
}

#[test]
fn render_single_message_without_content_is_empty() {
    let msgs = ChatMessages(vec![msg("user", None)]);
    assert_eq!(msgs.render().unwrap(), "");
}

#[test]
fn render_single_message_is_not_trimmed() {
    let msgs = ChatMessages(vec![msg("user", Some("  hi  "))]);
    assert_eq!(msgs.render().unwrap(), "  hi  ");
}

#[test]
fn render_two_messages_as_blocks() {
    let msgs = ChatMessages(vec![msg("user", Some("a")), msg("assistant", Some("b"))]);
    assert_eq!(msgs.render().unwrap(), "#[user]\na\n\n#[assistant]\nb\n\n");
}

#[test]
fn render_trims_roles_and_contents_in_blocks() {
    let msgs = ChatMessages(vec![
        msg(" user ", Some("\n a \t")),
        msg("assistant", None),
    ]);
    assert_eq!(msgs.render().unwrap(), "#[user]\na\n\n#[assistant]\n\n\n");
}

#[test]
fn render_empty_conversation_fails() {
    let msgs = ChatMessages(vec![]);
    assert!(matches!(msgs.render(), Err(ChatError::EmptyMessages)));
}

#[test]
fn error_messages_are_short_reasons() {
    assert_eq!(ChatError::InvalidModel.message(), "invalid model");
    assert_eq!(ChatError::EmptyMessages.message(), "empty messages");
}
