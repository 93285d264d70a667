use agent_shell::json_text::ChatReq;
use agent_shell::relay::{decode_reply, relay_outcome, Method, Relay};

#[test]
fn read_request_encodes_reserved_characters() {
    let r = Relay::local().fs_read_request("a b/c?d");
    assert_eq!(r.method, Method::Get);
    assert_eq!(r.url, "http://127.0.0.1:8000/fs/read?path=a%20b%2Fc%3Fd");
    assert!(r.body.is_none());
}

#[test]
fn read_request_query_decodes_to_path() {
    let path = "a b/c?d&e=f#g%h+\u{e9}\u{1f600}";
    let r = Relay::local().fs_read_request(path);
    let query = r.url.strip_prefix("http://127.0.0.1:8000/fs/read?path=").unwrap();
    assert_eq!(urlencoding::decode(query).unwrap(), path);
}

#[test]
fn read_request_encodes_utf8_bytes() {
    let r = Relay::new("http://h:1".to_string()).fs_read_request("\u{e9}-._~Az9");
    assert_eq!(r.url, "http://h:1/fs/read?path=%C3%A9-._~Az9");
}

#[test]
fn write_request_sends_content_as_json_string() {
    let r = Relay::local().fs_write_request("notes/a.txt", "he said \"hi\"\n");
    assert_eq!(r.method, Method::Post);
    assert_eq!(r.url, "http://127.0.0.1:8000/fs/write?path=notes%2Fa.txt");
    assert_eq!(r.body.as_deref(), Some("\"he said \\\"hi\\\"\\n\""));
}

#[test]
fn write_request_escapes_control_characters() {
    let r = Relay::local().fs_write_request("p", "\u{1}\t\\\u{7f}");
    assert_eq!(r.body.as_deref(), Some("\"\\u0001\\t\\\\\u{7f}\""));
}

#[test]
fn chat_request_has_prompt_and_null_model() {
    let r = Relay::local().agent_chat_request("hello".to_string());
    assert_eq!(r.method, Method::Post);
    assert_eq!(r.url, "http://127.0.0.1:8000/agent/chat");
    assert_eq!(r.body.as_deref(), Some("{\"prompt\":\"hello\",\"model\":null}"));
}

#[test]
fn chat_body_names_model_when_given() {
    let req = ChatReq { prompt: "q\"".to_string(), model: Some("m1".to_string()) };
    assert_eq!(req.to_json(), "{\"prompt\":\"q\\\"\",\"model\":\"m1\"}");
}

#[test]
fn relay_returns_json_body() {
    let v = relay_outcome(Ok(b"{\"ok\":true,\"n\":3}".to_vec())).unwrap();
    assert_eq!(v.get("n").and_then(|x| x.as_i64()), Some(3));
    assert_eq!(v.get("ok").and_then(|x| x.as_bool()), Some(true));
}

#[test]
fn relay_rejects_non_json_body() {
    let r = relay_outcome(Ok(b"<html>not json</html>".to_vec()));
    assert_eq!(r.unwrap_err(), "error decoding response body");
}

#[test]
fn relay_rejects_empty_body() {
    let r = relay_outcome(Ok(Vec::new()));
    assert_eq!(r.unwrap_err(), "error decoding response body");
}

#[test]
fn relay_passes_transport_failure_on() {
    let reason = "error sending request for url (http://127.0.0.1:8000/agent/chat)";
    let r = relay_outcome(Err(reason.to_string()));
    assert_eq!(r.unwrap_err(), reason);
}

#[test]
fn relay_describes_silent_transport_failure() {
    let r = relay_outcome(Err(String::new()));
    let e = r.unwrap_err();
    assert!(!e.is_empty());
    assert_eq!(e, "error sending request");
}

#[test]
fn decode_reply_keeps_parsed_document() {
    let parsed = serde_json::from_str::<serde_json::Value>("[1,2]");
    let v = decode_reply(parsed).unwrap();
    assert_eq!(v.as_array().map(|a| a.len()), Some(2));
}

#[test]
fn decode_reply_reports_parse_failure() {
    let parsed = serde_json::from_str::<serde_json::Value>("{oops");
    assert_eq!(decode_reply(parsed).unwrap_err(), "error decoding response body");
}
