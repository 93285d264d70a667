//! Acknowledgment handlers of the browser shell.
use vstd::prelude::*;

verus! {

/// Arguments of the `agent_open_url` command.
pub struct OpenUrlPayload {
    pub url: String,
}

/// Reply of the `agent_open_url` command.
pub struct UrlResponse {
    pub status: String,
    pub title: Option<String>,
    pub url: String,
}

/// The text that a successful acknowledgment carries as its status.
pub open spec fn status_ok() -> Seq<char> {
    seq!['o', 'k']
}

/// The text that a liveness probe answers with.
pub open spec fn pong() -> Seq<char> {
    seq!['p', 'o', 'n', 'g']
}

/// Acknowledges a request to open `payload.url`.
///
/// No navigation takes place: the reply echoes the URL, whatever string it
/// is, with status `"ok"` and no title.
pub fn agent_open_url(payload: OpenUrlPayload) -> (r: Result<UrlResponse, String>)
    ensures
        r is Ok,
        r->Ok_0.status@ == status_ok(),
        r->Ok_0.title is None,
        r->Ok_0.url@ == payload.url@,
{
    let status = "ok".to_owned();
    proof {
        reveal_strlit("ok");
    }
    Ok(UrlResponse { status, title: None, url: payload.url })
}

/// Liveness probe: always answers `"pong"`.
pub fn agent_ping() -> (r: Result<String, String>)
    ensures
        r is Ok,
        r->Ok_0@ == pong(),
{
    let answer = "pong".to_owned();
    proof {
        reveal_strlit("pong");
    }
    Ok(answer)
}

} // verus!
