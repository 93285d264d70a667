//! JSON text of the request bodies sent to the backend.
use vstd::prelude::*;

verus! {

/// The lower-case hexadecimal digit of a value below sixteen.
pub open spec fn hex_digit_lower(d: u32) -> char {
    seq!['0', '1', '2', '3', '4', '5', '6', '7', '8', '9', 'a', 'b', 'c', 'd', 'e', 'f'][d as int]
}

/// How one character is written inside a JSON string literal: quote and
/// backslash are escaped, control characters take their short escape or
/// `\u00xx`, all others stand as they are.
pub open spec fn json_escape_char(c: char) -> Seq<char> {
    if c == '"' {
        seq!['\\', '"']
    } else if c == '\\' {
        seq!['\\', '\\']
    } else if c == '\x08' {
        seq!['\\', 'b']
    } else if c == '\x0c' {
        seq!['\\', 'f']
    } else if c == '\n' {
        seq!['\\', 'n']
    } else if c == '\r' {
        seq!['\\', 'r']
    } else if c == '\t' {
        seq!['\\', 't']
    } else if (c as u32) < 0x20 {
        seq!['\\', 'u', '0', '0', hex_digit_lower(c as u32 / 16), hex_digit_lower(c as u32 % 16)]
    } else {
        seq![c]
    }
}

/// The escaped contents of a JSON string literal.
pub open spec fn json_escape(s: Seq<char>) -> Seq<char>
    decreases s.len(),
{
    if s.len() == 0 {
        seq![]
    } else {
        json_escape_char(s[0]) + json_escape(s.drop_first())
    }
}

/// A text as a JSON string literal, quotes included.
pub open spec fn json_string(s: Seq<char>) -> Seq<char> {
    seq!['"'] + json_escape(s) + seq!['"']
}

/// Relies on serde_json::to_string on a `str`: the text is written as one
/// JSON string literal, escaped as `json_escape_char` says. Serializing a
/// `str` into memory does not fail.
#[verifier::external_body]
pub(crate) fn to_json_string(s: &str) -> (r: String)
    ensures
        r@ == json_string(s@),
{
    match serde_json::to_string(s) {
        Ok(t) => t,
        Err(_) => String::new(),
    }
}

/// Body of a chat request.
pub struct ChatReq {
    pub prompt: String,
    pub model: Option<String>,
}

/// The JSON object text of a chat request: the prompt, then the model,
/// `null` when none is named.
pub open spec fn chat_body_text(prompt: Seq<char>, model: Option<Seq<char>>) -> Seq<char> {
    "{\"prompt\":"@ + json_string(prompt) + ",\"model\":"@ + match model {
        Some(m) => json_string(m),
        None => "null"@,
    } + "}"@
}

impl ChatReq {
    /// The JSON text of this request.
    pub fn to_json(&self) -> (r: String)
        ensures
            r@ == chat_body_text(self.prompt@, self.model.deep_view()),
    {
        let mut body = "{\"prompt\":".to_owned();
        let prompt = to_json_string(self.prompt.as_str());
        body.append(prompt.as_str());
        body.append(",\"model\":");
        match &self.model {
            Some(m) => {
                let model = to_json_string(m.as_str());
                body.append(model.as_str());
            },
            None => {
                body.append("null");
            },
        }
        body.append("}");
        body
    }
}

} // verus!
