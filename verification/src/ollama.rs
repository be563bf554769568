//! Messages and responses of a local chat-completion server, and the
//! extraction of a model's reasoning block and final answer.
use vstd::prelude::*;
use crate::text::{chars_of, find_chars, trim_bounds, find_first, trim_seq};

verus! {

/// A single message in a chat conversation.
#[derive(Clone, Debug)]
pub struct ChatMessage {
    pub role: String,
    pub content: String,
}

impl ChatMessage {
    /// A message with role `"system"`.
    pub fn system(content: &str) -> (r: Self)
        ensures
            r.role@ == "system"@,
            r.content@ == content@,
    {
        ChatMessage { role: String::from_str("system"), content: String::from_str(content) }
    }

    /// A message with role `"user"`.
    pub fn user(content: &str) -> (r: Self)
        ensures
            r.role@ == "user"@,
            r.content@ == content@,
    {
        ChatMessage { role: String::from_str("user"), content: String::from_str(content) }
    }

    /// A message with role `"assistant"`.
    pub fn assistant(content: &str) -> (r: Self)
        ensures
            r.role@ == "assistant"@,
            r.content@ == content@,
    {
        ChatMessage { role: String::from_str("assistant"), content: String::from_str(content) }
    }
}

/// A non-streaming chat completion.
#[derive(Clone, Debug)]
pub struct ChatResponse {
    pub model: String,
    pub message: ChatMessage,
    pub done: bool,
    pub total_duration: Option<u64>,
    pub load_duration: Option<u64>,
    pub prompt_eval_count: Option<u32>,
    pub eval_count: Option<u32>,
    pub eval_duration: Option<u64>,
}

/// The reasoning block of `c`: the text between the first `<think>` and
/// the first `</think>`, trimmed, when the closing tag comes after the
/// opening one with something in between.
pub open spec fn thinking_of(c: Seq<char>) -> Option<Seq<char>> {
    match (find_first(c, "<think>"@), find_first(c, "</think>"@)) {
        (Some(s), Some(e)) => if e > s + 7 {
            Some(trim_seq(c.subrange(s + 7, e)))
        } else {
            None
        },
        _ => None,
    }
}

/// The answer of `c`: what follows the first `</think>`, trimmed, or all of
/// `c` trimmed when there is no such tag.
pub open spec fn answer_of(c: Seq<char>) -> Seq<char> {
    match find_first(c, "</think>"@) {
        Some(e) => trim_seq(c.subrange(e + 8, c.len() as int)),
        None => trim_seq(c),
    }
}

impl ChatResponse {
    /// The reasoning block of the message (between `<think>` tags).
    pub fn thinking(&self) -> (r: Option<&str>)
        ensures
            match thinking_of(self.message.content@) {
                Some(t) => r is Some && r->0@ == t,
                None => r is None,
            },
    {
        let content = self.message.content.as_str();
        let cs = chars_of(content);
        let open_tag = chars_of("<think>");
        let close_tag = chars_of("</think>");
        proof {
            reveal_strlit("<think>");
            reveal_strlit("</think>");
        }
        let n = cs.len();
        let start = match find_chars(&cs, &open_tag) {
            Some(s) => s,
            None => return None,
        };
        let end = match find_chars(&cs, &close_tag) {
            Some(e) => e,
            None => return None,
        };
        if end > start + 7 {
            let (a, b) = trim_bounds(&cs, start + 7, end);
            Some(content.substring_char(a, b))
        } else {
            None
        }
    }

    /// The final answer (after `</think>`, or the whole message without one).
    pub fn answer(&self) -> (r: &str)
        ensures
            r@ == answer_of(self.message.content@),
    {
        let content = self.message.content.as_str();
        let cs = chars_of(content);
        let close_tag = chars_of("</think>");
        proof {
            reveal_strlit("</think>");
        }
        let n = cs.len();
        let (a, b) = match find_chars(&cs, &close_tag) {
            Some(e) => trim_bounds(&cs, e + 8, n),
            None => trim_bounds(&cs, 0, n),
        };
        proof {
            assert(cs@.subrange(0, cs@.len() as int) =~= cs@);
        }
        content.substring_char(a, b)
    }
}

/// A non-streaming completion of a bare prompt.
#[derive(Clone, Debug)]
pub struct GenerateResponse {
    pub model: String,
    pub response: String,
    pub done: bool,
    pub total_duration: Option<u64>,
    pub eval_count: Option<u32>,
    pub eval_duration: Option<u64>,
}

/// Details a server reports of one model.
#[derive(Clone, Debug)]
pub struct ModelDetails {
    pub format: Option<String>,
    pub family: Option<String>,
    pub parameter_size: Option<String>,
    pub quantization_level: Option<String>,
}

/// A model installed on a server.
#[derive(Clone, Debug)]
pub struct ModelInfo {
    pub name: String,
    pub model: String,
    pub size: u64,
    pub digest: String,
    pub details: ModelDetails,
}

/// The list of installed models.
#[derive(Clone, Debug)]
pub struct TagsResponse {
    pub models: Vec<ModelInfo>,
}

/// Why a request to a chat server failed.
#[derive(Clone, Debug)]
pub enum OllamaError {
    Connection(String),
    Api { status: u16, message: String },
    Parse(String),
    ModelNotFound(String),
    Timeout(u64),
    NoServersAvailable,
}

} // verus!
