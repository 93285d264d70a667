//! The studio shell's relay: each command becomes one HTTP request to the
//! backend, and the backend's reply becomes the command's JSON result or a
//! description of what went wrong.
use vstd::prelude::*;
use vstd::utf8::encode_utf8;
use crate::json_text::{ChatReq, chat_body_text, json_string, to_json_string};
use crate::percent::{percent_encode, url_encode};

verus! {

/// serde_json's `Value`, carried through unread as a command's result.
#[verifier::external_type_specification]
#[verifier::external_body]
pub struct ExJsonValue(serde_json::Value);

/// serde_json's `Error`, which a failed parse returns.
#[verifier::external_type_specification]
#[verifier::external_body]
pub struct ExJsonError(serde_json::Error);

/// Whether a byte sequence is one complete JSON document, as serde_json
/// reads it.
pub uninterp spec fn is_json_document(b: Seq<u8>) -> bool;

/// Relies on serde_json::from_slice into a `Value`: it succeeds exactly on
/// the byte sequences that hold one JSON document, and never panics.
#[verifier::external_body]
fn parse_json(body: &[u8]) -> (r: Result<serde_json::Value, serde_json::Error>)
    ensures
        r is Ok <==> is_json_document(body@),
{
    serde_json::from_slice(body)
}

/// HTTP method of a relayed request.
#[derive(PartialEq, Eq, Structural, Clone, Copy, Debug)]
pub enum Method {
    Get,
    Post,
}

/// One request for the backend: method, full URL and, for a POST, the JSON
/// text of its body.
pub struct RelayRequest {
    pub method: Method,
    pub url: String,
    pub body: Option<String>,
}

/// Where the backend listens unless another address is given.
pub open spec fn default_base_url() -> Seq<char> {
    "http://127.0.0.1:8000"@
}

/// The URL of a filesystem request with `path` as its query value.
pub open spec fn fs_url(base: Seq<char>, route: Seq<char>, path: Seq<char>) -> Seq<char> {
    base + route + "?path="@ + percent_encode(encode_utf8(path))
}

/// What a failed transport leaves as the command's error.
pub open spec fn transport_failure_text(reason: Seq<char>) -> Seq<char> {
    if reason.len() == 0 {
        "error sending request"@
    } else {
        reason
    }
}

/// The error of a reply whose body is not JSON.
pub open spec fn decode_failure_text() -> Seq<char> {
    "error decoding response body"@
}

/// The relay of the studio shell, bound to one backend address.
pub struct Relay {
    pub base_url: String,
}

impl Relay {
    /// A relay to the backend at `base_url` (scheme, host and port, with no
    /// trailing slash).
    pub fn new(base_url: String) -> (r: Relay)
        ensures
            r.base_url@ == base_url@,
    {
        Relay { base_url }
    }

    /// A relay to the backend on the local machine, port 8000.
    pub fn local() -> (r: Relay)
        ensures
            r.base_url@ == default_base_url(),
    {
        Relay { base_url: "http://127.0.0.1:8000".to_owned() }
    }

    /// The request of the `fs_read` command: a GET of `/fs/read` with the
    /// path percent-encoded in the query.
    pub fn fs_read_request(&self, path: &str) -> (r: RelayRequest)
        ensures
            r.method == Method::Get,
            r.url@ == fs_url(self.base_url@, "/fs/read"@, path@),
            r.body is None,
    {
        let mut url = self.base_url.clone();
        url.append("/fs/read");
        url.append("?path=");
        let value = url_encode(path);
        url.append(value.as_str());
        RelayRequest { method: Method::Get, url, body: None }
    }

    /// The request of the `fs_write` command: a POST of `/fs/write` with the
    /// path percent-encoded in the query and the content, as a bare JSON
    /// string, for body.
    pub fn fs_write_request(&self, path: &str, content: &str) -> (r: RelayRequest)
        ensures
            r.method == Method::Post,
            r.url@ == fs_url(self.base_url@, "/fs/write"@, path@),
            r.body matches Some(b) && b@ == json_string(content@),
    {
        let mut url = self.base_url.clone();
        url.append("/fs/write");
        url.append("?path=");
        let value = url_encode(path);
        url.append(value.as_str());
        let body = to_json_string(content);
        RelayRequest { method: Method::Post, url, body: Some(body) }
    }

    /// The request of the `agent_chat` command: a POST of `/agent/chat` whose
    /// body is the prompt with no model.
    pub fn agent_chat_request(&self, prompt: String) -> (r: RelayRequest)
        ensures
            r.method == Method::Post,
            r.url@ == self.base_url@ + "/agent/chat"@,
            r.body matches Some(b) && b@ == chat_body_text(prompt@, None),
    {
        let mut url = self.base_url.clone();
        url.append("/agent/chat");
        let req = ChatReq { prompt, model: None };
        let body = req.to_json();
        RelayRequest { method: Method::Post, url, body: Some(body) }
    }
}

/// The result of a relayed command from the parse of the reply's body: the
/// document itself, or `decode_failure_text` when the body is not JSON.
pub fn decode_reply(parsed: Result<serde_json::Value, serde_json::Error>) -> (r: Result<
    serde_json::Value,
    String,
>)
    ensures
        r is Ok <==> parsed is Ok,
        parsed matches Ok(v) ==> r == Ok::<serde_json::Value, String>(v),
        r is Err ==> r->Err_0@ == decode_failure_text(),
{
    match parsed {
        Ok(v) => Ok(v),
        Err(_) => Err("error decoding response body".to_owned()),
    }
}

/// The result of a relayed command, from what the transport gave back: the
/// reply's body, or the reason why no reply came.
///
/// A body that holds one JSON document is the result; any other body fails
/// with `decode_failure_text`; a failed transport fails with its reason, or
/// with a fixed description where the reason is empty.
pub fn relay_outcome(reply: Result<Vec<u8>, String>) -> (r: Result<serde_json::Value, String>)
    ensures
        reply matches Err(reason) ==> r matches Err(e) && e@ == transport_failure_text(reason@),
        reply matches Ok(body) ==> (r is Ok <==> is_json_document(body@)),
        reply is Ok && r is Err ==> r->Err_0@ == decode_failure_text(),
{
    match reply {
        Err(reason) => {
            if reason.as_str().is_empty() {
                Err("error sending request".to_owned())
            } else {
                Err(reason)
            }
        },
        Ok(body) => decode_reply(parse_json(body.as_slice())),
    }
}

/// A command whose backend cannot be reached fails, and its error is a
/// non-empty description.
pub proof fn lemma_transport_failure_described(reason: Seq<char>)
    ensures
        transport_failure_text(reason).len() > 0,
{
    reveal_strlit("error sending request");
}

/// A reply whose body is not JSON fails with a non-empty parse error.
pub proof fn lemma_decode_failure_described()
    ensures
        decode_failure_text().len() > 0,
{
    reveal_strlit("error decoding response body");
}

} // verus!
