use vstd::prelude::*;
use vstd::string::StringExecFns;
use crate::error::ChatError;
use crate::strings::{spec_trim, trim};

verus! {

/// One turn of the conversation history the caller supplies.
#[derive(Debug, Clone)]
pub struct ChatMessage {
    pub role: String,
    pub content: Option<String>,
    pub reasoning_content: Option<String>,
}

/// Mathematical image of one chat message.
pub struct ChatMessageModel {
    pub role: Seq<char>,
    pub content: Option<Seq<char>>,
    pub reasoning_content: Option<Seq<char>>,
}

impl View for ChatMessage {
    type V = ChatMessageModel;

    open spec fn view(&self) -> ChatMessageModel {
        ChatMessageModel {
            role: self.role@,
            content: match self.content {
                Some(c) => Some(c@),
                None => None,
            },
            reasoning_content: match self.reasoning_content {
                Some(c) => Some(c@),
                None => None,
            },
        }
    }
}

/// The ordered conversation history; insertion order is conversation order.
#[derive(Debug, Clone)]
pub struct ChatMessages(pub Vec<ChatMessage>);

impl View for ChatMessages {
    type V = Seq<ChatMessageModel>;

    open spec fn view(&self) -> Seq<ChatMessageModel> {
        self.0@.map_values(|m: ChatMessage| m@)
    }
}

/// A message's content, an absent content reading as the empty string.
pub open spec fn spec_content(m: ChatMessageModel) -> Seq<char> {
    match m.content {
        Some(c) => c,
        None => Seq::<char>::empty(),
    }
}

/// One message rendered as a block of the flattened multi-turn prompt: a
/// `#[role]` header line, the trimmed content, and a blank-line separator.
pub open spec fn spec_block(m: ChatMessageModel) -> Seq<char> {
    "#["@ + spec_trim(m.role) + "]\n"@ + spec_trim(spec_content(m)) + "\n\n"@
}

/// The blocks of all messages, concatenated in conversation order.
pub open spec fn spec_blocks(ms: Seq<ChatMessageModel>) -> Seq<char>
    decreases ms.len(),
{
    if ms.len() == 0 {
        Seq::<char>::empty()
    } else {
        spec_blocks(ms.drop_last()) + spec_block(ms.last())
    }
}

/// What rendering a non-empty conversation yields: a single message's content
/// verbatim, or the concatenated blocks of a multi-turn history.
pub open spec fn spec_render(ms: Seq<ChatMessageModel>) -> Seq<char> {
    if ms.len() == 1 {
        spec_content(ms[0])
    } else {
        spec_blocks(ms)
    }
}

impl ChatMessages {
    /// Flattens the conversation into the single prompt string the upstream
    /// expects.  An empty conversation is a validation error, never a silent
    /// empty prompt.
    pub fn render(&self) -> (r: Result<String, ChatError>)
        ensures
            self@.len() == 0 ==> r == Err::<String, ChatError>(ChatError::EmptyMessages),
            self@.len() > 0 ==> (r matches Ok(s) && s@ == spec_render(self@)),
    {
        if self.0.len() == 0 {
            return Err(ChatError::EmptyMessages);
        }
        if self.0.len() == 1 {
            let m = &self.0[0];
            return match &m.content {
                Some(c) => Ok(c.clone()),
                None => Ok(String::new()),
            };
        }
        let mut out = String::new();
        let mut i: usize = 0;
        while i < self.0.len()
            invariant
                i <= self.0.len(),
                out@ == spec_blocks(self@.take(i as int)),
            decreases self.0.len() - i,
        {
            let m = &self.0[i];
            out.append("#[");
            let role_trimmed = trim(m.role.as_str());
            out.append(role_trimmed.as_str());
            out.append("]\n");
            let content_trimmed = match &m.content {
                Some(c) => trim(c.as_str()),
                None => trim(""),
            };
            out.append(content_trimmed.as_str());
            out.append("\n\n");
            proof {
                reveal_strlit("");
                assert(content_trimmed@ == spec_trim(spec_content(self@[i as int])));
                assert(self@.take(i + 1).drop_last() =~= self@.take(i as int));
                assert(self@.take(i + 1).last() == self@[i as int]);
                assert(out@ =~= spec_blocks(self@.take(i + 1)));
            }
            i += 1;
        }
        proof {
            assert(self@.take(self.0.len() as int) =~= self@);
        }
        Ok(out)
    }
}

} // verus!
