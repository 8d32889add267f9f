use yuanbao_chat2api::error::ChatError;
use yuanbao_chat2api::model::ChatModel;

#[test]
fn parse_r1() {
    assert!(matches!(
        ChatModel::parse("deepseek-r1"),
        Ok(ChatModel::DeepSeekR1)
    ));
}

#[test]
fn parse_v3() {
    assert!(matches!(
        ChatModel::parse("deepseek-v3"),
        Ok(ChatModel::DeepSeekV3)
    ));
}

#[test]
fn parse_unknown_name_fails() {
    assert!(matches!(
        ChatModel::parse("bogus"),
        Err(ChatError::InvalidModel)
    ));
}

#[test]
fn upstream_identifiers() {
    assert_eq!(ChatModel::DeepSeekV3.as_yuanbao_string(), "deep_seek_v3");
    assert_eq!(ChatModel::DeepSeekR1.as_yuanbao_string(), "deep_seek");
}

#[test]
fn public_names() {
    assert_eq!(ChatModel::DeepSeekV3.as_common_string(), "deepseek-v3");
    assert_eq!(ChatModel::DeepSeekR1.as_common_string(), "deepseek-r1");
}

#[test]
fn public_names_parse_back() {
    for m in [ChatModel::DeepSeekV3, ChatModel::DeepSeekR1] {
        assert_eq!(ChatModel::parse(&m.as_common_string()), Ok(m));
    }
}
