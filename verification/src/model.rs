use vstd::prelude::*;
use crate::error::ChatError;
use crate::strings::str_eq;

verus! {

/// The closed set of chat models the proxy supports.  Each model has a
/// public-protocol name (what a client sends) and an upstream identifier
/// (what the upstream's request body expects).
#[derive(Clone, Copy, Debug, PartialEq, Eq, Structural)]
pub enum ChatModel {
    DeepSeekV3,
    DeepSeekR1,
}

/// The identifier the upstream protocol uses for a model.
pub open spec fn spec_upstream_id(m: ChatModel) -> Seq<char> {
    match m {
        ChatModel::DeepSeekV3 => "deep_seek_v3"@,
        ChatModel::DeepSeekR1 => "deep_seek"@,
    }
}

/// The name the public protocol uses for a model.
pub open spec fn spec_public_name(m: ChatModel) -> Seq<char> {
    match m {
        ChatModel::DeepSeekV3 => "deepseek-v3"@,
        ChatModel::DeepSeekR1 => "deepseek-r1"@,
    }
}

/// What parsing a public model name yields: the matching model, or an
/// invalid-model error for every other string.
pub open spec fn spec_parse(s: Seq<char>) -> Result<ChatModel, ChatError> {
    if s == "deepseek-r1"@ {
        Ok(ChatModel::DeepSeekR1)
    } else if s == "deepseek-v3"@ {
        Ok(ChatModel::DeepSeekV3)
    } else {
        Err(ChatError::InvalidModel)
    }
}

impl ChatModel {
    /// Parses a public model name; any name outside the closed set is a
    /// request-validation error.
    pub fn parse(s: &str) -> (r: Result<ChatModel, ChatError>)
        ensures
            r == spec_parse(s@),
    {
        if str_eq(s, "deepseek-r1") {
            Ok(ChatModel::DeepSeekR1)
        } else if str_eq(s, "deepseek-v3") {
            Ok(ChatModel::DeepSeekV3)
        } else {
            Err(ChatError::InvalidModel)
        }
    }

    /// The upstream protocol's identifier for this model.
    pub fn as_yuanbao_string(&self) -> (r: String)
        ensures
            r@ == spec_upstream_id(*self),
    {
        match self {
            ChatModel::DeepSeekV3 => "deep_seek_v3".to_owned(),
            ChatModel::DeepSeekR1 => "deep_seek".to_owned(),
        }
    }

    /// The public protocol's name for this model.
    pub fn as_common_string(&self) -> (r: String)
        ensures
            r@ == spec_public_name(*self),
    {
        match self {
            ChatModel::DeepSeekV3 => "deepseek-v3".to_owned(),
            ChatModel::DeepSeekR1 => "deepseek-r1".to_owned(),
        }
    }
}

/// Law: each supported model's public name parses back to that model, so the
/// name projection and the parser are mutually consistent.
pub proof fn lemma_parse_public_name(m: ChatModel)
    ensures
        spec_parse(spec_public_name(m)) == Ok::<ChatModel, ChatError>(m),
{
    reveal_strlit("deepseek-r1");
    reveal_strlit("deepseek-v3");
    assert("deepseek-r1"@[9] == 'r');
    assert("deepseek-v3"@[9] == 'v');
}

} // verus!
