use vstd::prelude::*;
use vstd::string::{StrSliceExecFns, StringExecFns};
use crate::error::ChatError;
use crate::message::{spec_render, ChatMessages};
use crate::model::{spec_upstream_id, ChatModel};
use crate::strings::push_char;

verus! {

/// The static process configuration: the upstream account's credentials, the
/// agent identity, the fixed conversation, the listening port and the
/// service's own API key.  Loaded once at start and never mutated.
#[derive(Debug, Clone)]
pub struct Config {
    pub key: String,
    pub agent_id: String,
    pub hy_user: String,
    pub hy_token: String,
    pub port: u16,
    pub conversation_id: String,
}

impl Config {
    /// Resolves the conversation to speak under.  Today this is the fixed
    /// configured identifier; it is an operation rather than a field read so
    /// that conversations can one day be minted per request.
    pub fn conversation(&self) -> (r: String)
        ensures
            r@ == self.conversation_id@,
    {
        self.conversation_id.clone()
    }
}

/// One inbound completion call: the conversation history and the model it
/// asks for.
pub struct ChatCompletionRequest {
    pub messages: ChatMessages,
    pub chat_model: ChatModel,
}

/// A hexadecimal digit, lower case.
pub open spec fn spec_hex_digit(n: int) -> char {
    if n == 0 {
        '0'
    } else if n == 1 {
        '1'
    } else if n == 2 {
        '2'
    } else if n == 3 {
        '3'
    } else if n == 4 {
        '4'
    } else if n == 5 {
        '5'
    } else if n == 6 {
        '6'
    } else if n == 7 {
        '7'
    } else if n == 8 {
        '8'
    } else if n == 9 {
        '9'
    } else if n == 10 {
        'a'
    } else if n == 11 {
        'b'
    } else if n == 12 {
        'c'
    } else if n == 13 {
        'd'
    } else if n == 14 {
        'e'
    } else {
        'f'
    }
}

fn hex_digit(n: u32) -> (c: char)
    requires
        n < 16,
    ensures
        c == spec_hex_digit(n as int),
{
    if n == 0 {
        '0'
    } else if n == 1 {
        '1'
    } else if n == 2 {
        '2'
    } else if n == 3 {
        '3'
    } else if n == 4 {
        '4'
    } else if n == 5 {
        '5'
    } else if n == 6 {
        '6'
    } else if n == 7 {
        '7'
    } else if n == 8 {
        '8'
    } else if n == 9 {
        '9'
    } else if n == 10 {
        'a'
    } else if n == 11 {
        'b'
    } else if n == 12 {
        'c'
    } else if n == 13 {
        'd'
    } else if n == 14 {
        'e'
    } else {
        'f'
    }
}

/// How one character appears inside a JSON string literal: quote and
/// backslash escaped, the named control characters by their short escapes,
/// every other control character as `\u00xx`, and everything else verbatim.
pub open spec fn spec_escape_char(c: char) -> Seq<char> {
    if c == '"' {
        seq!['\\', '"']
    } else if c == '\\' {
        seq!['\\', '\\']
    } else if c == '\u{8}' {
        seq!['\\', 'b']
    } else if c == '\u{c}' {
        seq!['\\', 'f']
    } else if c == '\n' {
        seq!['\\', 'n']
    } else if c == '\r' {
        seq!['\\', 'r']
    } else if c == '\t' {
        seq!['\\', 't']
    } else if (c as u32) < 0x20 {
        seq![
            '\\',
            'u',
            '0',
            '0',
            spec_hex_digit(c as u32 as int / 16),
            spec_hex_digit(c as u32 as int % 16),
        ]
    } else {
        seq![c]
    }
}

/// A whole string as it appears inside a JSON string literal.
pub open spec fn spec_escape(s: Seq<char>) -> Seq<char>
    decreases s.len(),
{
    if s.len() == 0 {
        Seq::<char>::empty()
    } else {
        spec_escape(s.drop_last()) + spec_escape_char(s.last())
    }
}

/// Escapes a string for embedding in a JSON string literal, exactly as
/// `spec_escape` describes.
pub fn json_escape(s: &str) -> (r: String)
    ensures
        r@ == spec_escape(s@),
{
    let n = s.unicode_len();
    let mut out = String::new();
    let mut i: usize = 0;
    while i < n
        invariant
            i <= n,
            n == s@.len(),
            out@ == spec_escape(s@.take(i as int)),
        decreases n - i,
    {
        let c = s.get_char(i);
        if c == '"' {
            out.append("\\\"");
            proof {
                reveal_strlit("\\\"");
            }
        } else if c == '\\' {
            out.append("\\\\");
            proof {
                reveal_strlit("\\\\");
            }
        } else if c == '\u{8}' {
            out.append("\\b");
            proof {
                reveal_strlit("\\b");
            }
        } else if c == '\u{c}' {
            out.append("\\f");
            proof {
                reveal_strlit("\\f");
            }
        } else if c == '\n' {
            out.append("\\n");
            proof {
                reveal_strlit("\\n");
            }
        } else if c == '\r' {
            out.append("\\r");
            proof {
                reveal_strlit("\\r");
            }
        } else if c == '\t' {
            out.append("\\t");
            proof {
                reveal_strlit("\\t");
            }
        } else if (c as u32) < 0x20 {
            out.append("\\u00");
            push_char(&mut out, hex_digit(c as u32 / 16));
            push_char(&mut out, hex_digit(c as u32 % 16));
            proof {
                reveal_strlit("\\u00");
            }
        } else {
            push_char(&mut out, c);
        }
        proof {
            assert(s@.take(i + 1).drop_last() =~= s@.take(i as int));
            assert(s@.take(i + 1).last() == s@[i as int]);
            assert(out@ =~= spec_escape(s@.take(i + 1)));
        }
        i += 1;
    }
    proof {
        assert(s@.take(n as int) =~= s@);
    }
    out
}

/// The upstream request body for one completion: the fixed protocol fields,
/// the escaped prompt sent both as `prompt` and `displayPrompt`, the agent
/// identity and the requested model's upstream identifier.
pub open spec fn spec_body(prompt: Seq<char>, agent_id: Seq<char>, model: ChatModel) -> Seq<
    char,
> {
    "{\"model\":\"gpt_175B_0404\",\"prompt\":\""@ + spec_escape(prompt)
        + "\",\"plugin\":\"Adaptive\",\"displayPrompt\":\""@ + spec_escape(prompt)
        + "\",\"displayPromptType\":1,\"options\":{\"imageIntention\":{\"needIntentionModel\":true,\"backendUpdateFlag\":2,\"intentionStatus\":true}},\"multimedia\":[],\"agentId\":\""@
        + spec_escape(agent_id) + "\",\"supportHint\":1,\"version\":\"v2\",\"chatModelId\":\""@
        + spec_upstream_id(model) + "\"}"@
}

/// Builds the upstream request body text for a rendered prompt.
pub fn build_body(prompt: &str, agent_id: &str, model: ChatModel) -> (r: String)
    ensures
        r@ == spec_body(prompt@, agent_id@, model),
{
    let escaped = json_escape(prompt);
    let mut out = String::new();
    out.append("{\"model\":\"gpt_175B_0404\",\"prompt\":\"");
    out.append(escaped.as_str());
    out.append("\",\"plugin\":\"Adaptive\",\"displayPrompt\":\"");
    out.append(escaped.as_str());
    out.append(
        "\",\"displayPromptType\":1,\"options\":{\"imageIntention\":{\"needIntentionModel\":true,\"backendUpdateFlag\":2,\"intentionStatus\":true}},\"multimedia\":[],\"agentId\":\"",
    );
    let escaped_agent = json_escape(agent_id);
    out.append(escaped_agent.as_str());
    out.append("\",\"supportHint\":1,\"version\":\"v2\",\"chatModelId\":\"");
    let model_id = model.as_yuanbao_string();
    out.append(model_id.as_str());
    out.append("\"}");
    proof {
        assert(out@ =~= spec_body(prompt@, agent_id@, model));
    }
    out
}

/// Builds the whole upstream body for one inbound request: renders the
/// conversation (rejecting an empty one) and embeds it.
pub fn build_completion_body(request: &ChatCompletionRequest, agent_id: &str) -> (r: Result<
    String,
    ChatError,
>)
    ensures
        request.messages@.len() == 0 ==> r == Err::<String, ChatError>(ChatError::EmptyMessages),
        request.messages@.len() > 0 ==> (r matches Ok(s) && s@ == spec_body(
            spec_render(request.messages@),
            agent_id@,
            request.chat_model,
        )),
{
    match request.messages.render() {
        Err(e) => Err(e),
        Ok(prompt) => Ok(build_body(prompt.as_str(), agent_id, request.chat_model)),
    }
}

/// The URL a completion is posted to: the fixed upstream chat endpoint,
/// parameterized by the conversation.
pub open spec fn spec_chat_url(conversation_id: Seq<char>) -> Seq<char> {
    "https://yuanbao.tencent.com/api/chat/"@ + conversation_id
}

pub fn chat_url(conversation_id: &str) -> (r: String)
    ensures
        r@ == spec_chat_url(conversation_id@),
{
    let mut out = String::new();
    out.append("https://yuanbao.tencent.com/api/chat/");
    out.append(conversation_id);
    out
}

/// The session cookie carried by every outbound request.
pub open spec fn spec_cookie(hy_user: Seq<char>, hy_token: Seq<char>) -> Seq<char> {
    "hy_source=web; hy_user="@ + hy_user + "; hy_token="@ + hy_token
}

pub fn cookie_value(hy_user: &str, hy_token: &str) -> (r: String)
    ensures
        r@ == spec_cookie(hy_user@, hy_token@),
{
    let mut out = String::new();
    out.append("hy_source=web; hy_user=");
    out.append(hy_user);
    out.append("; hy_token=");
    out.append(hy_token);
    out
}

/// The referer header, parameterized by the agent identity.
pub open spec fn spec_referer(agent_id: Seq<char>) -> Seq<char> {
    "https://yuanbao.tencent.com/chat/"@ + agent_id
}

pub fn referer_value(agent_id: &str) -> (r: String)
    ensures
        r@ == spec_referer(agent_id@),
{
    let mut out = String::new();
    out.append("https://yuanbao.tencent.com/chat/");
    out.append(agent_id);
    out
}

/// The fixed origin header every outbound request carries.
pub fn origin_value() -> (r: String)
    ensures
        r@ == "https://yuanbao.tencent.com"@,
{
    "https://yuanbao.tencent.com".to_owned()
}

/// The fixed browser-like user agent the upstream's fingerprinting expects.
pub fn user_agent_value() -> (r: String)
    ensures
        r@
            == "Mozilla/5.0 (Windows NT 10.0; Win64; x64)AppleWebKit/537.36 (KHTML, like Gecko) Chrome/134.0.0.0 Safari/537.36"@,
{
    "Mozilla/5.0 (Windows NT 10.0; Win64; x64)AppleWebKit/537.36 (KHTML, like Gecko) Chrome/134.0.0.0 Safari/537.36".to_owned()
}

} // verus!
