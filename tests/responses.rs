use ollama_client::error::{ClientError, Exchange};
use ollama_client::response::{
    body_start, join_texts, models_reply, pick_version, present_texts, prompt_reply,
    settle_reply, version_of_response, version_reply,
};
use ollama_client::text::chars_of;

fn http(body: &str) -> String {
    format!("HTTP/1.1 200 OK\r\nContent-Type: application/json\r\nConnection: close\r\n\r\n{}", body)
}

fn received(body: &str) -> Exchange {
    Exchange::Received(http(body))
}

#[test]
fn version_is_read_from_json_body() {
    assert_eq!(version_reply(&received("{\"version\":\"9.9.9\"}")), "9.9.9");
}

#[test]
fn version_body_is_trimmed_before_parsing() {
    assert_eq!(version_of_response(&http("\u{a0} {\"version\":\"0.1.32\"}\n\u{3000}")), "0.1.32");
}

#[test]
fn unreachable_version_is_a_nonempty_sentinel() {
    let v = version_reply(&Exchange::Unreachable("connection refused".to_string()));
    assert_eq!(v, "not connected");
    assert!(!v.is_empty());
}

#[test]
fn version_transport_failures_are_sentinels() {
    assert_eq!(version_reply(&Exchange::WriteFailed("broken pipe".to_string())), "write error");
    assert_eq!(version_reply(&Exchange::ReadFailed("reset".to_string())), "read error");
}

#[test]
fn version_falls_back_to_a_line_that_mentions_it() {
    let resp = "HTTP/1.1 200 OK\r\nX-Server: test\r\n\r\nserver version 1.2\r\nbye";
    assert_eq!(version_of_response(resp), "server version 1.2");
}

#[test]
fn version_falls_back_when_the_member_is_not_a_string() {
    let resp = http("{\"version\":3}");
    assert_eq!(version_of_response(&resp), "{\"version\":3}");
}

#[test]
fn version_without_any_mention_is_invalid() {
    assert_eq!(version_of_response("garbage"), "invalid response");
    assert_eq!(version_reply(&received("{\"other\":1}")), "invalid response");
}

#[test]
fn pick_version_prefers_the_parsed_text() {
    assert_eq!(pick_version(Some("7.0".to_string()), "version 1"), "7.0");
    assert_eq!(pick_version(None, "a\nthe version 1\r\nversion 2"), "the version 1");
    assert_eq!(pick_version(None, "nothing"), "invalid response");
}

#[test]
fn models_skip_entries_without_a_name() {
    let r = models_reply(&received("{\"models\":[{\"name\":\"a\"},{\"notname\":\"x\"},{\"name\":\"b\"}]}"));
    assert_eq!(r, Ok(vec!["a".to_string(), "b".to_string()]));
}

#[test]
fn models_skip_names_that_are_not_strings() {
    let r = models_reply(&received("{\"models\":[{\"name\":1},{\"name\":\"llama3:8b\",\"size\":5}]}"));
    assert_eq!(r, Ok(vec!["llama3:8b".to_string()]));
}

#[test]
fn models_of_an_empty_list() {
    assert_eq!(models_reply(&received("{\"models\":[]}")), Ok(vec![]));
}

#[test]
fn models_missing_key_is_a_protocol_error() {
    let r = models_reply(&received("{\"tags\":[]}"));
    assert_eq!(r, Err(ClientError::Protocol("Invalid models format in response".to_string())));
}

#[test]
fn models_not_an_array_is_a_protocol_error() {
    let r = models_reply(&received("{\"models\":{\"name\":\"a\"}}"));
    assert!(matches!(r, Err(ClientError::Protocol(_))));
}

#[test]
fn models_unparsable_body_is_a_protocol_error() {
    let r = models_reply(&received("not json"));
    assert_eq!(r, Err(ClientError::Protocol("JSON parse error".to_string())));
}

#[test]
fn models_without_body_is_a_protocol_error() {
    let r = models_reply(&Exchange::Received("HTTP/1.1 200 OK\r\nHost: x\r\n".to_string()));
    assert_eq!(
        r,
        Err(ClientError::Protocol("Invalid HTTP response (missing body)".to_string()))
    );
}

#[test]
fn models_transport_failures() {
    assert_eq!(
        models_reply(&Exchange::Unreachable("refused".to_string())),
        Err(ClientError::Connection("refused".to_string()))
    );
    assert_eq!(
        models_reply(&Exchange::WriteFailed("pipe".to_string())),
        Err(ClientError::Transport("pipe".to_string()))
    );
    assert_eq!(
        models_reply(&Exchange::ReadFailed("reset".to_string())),
        Err(ClientError::Transport("reset".to_string()))
    );
}

#[test]
fn prompt_joins_line_chunks() {
    let r = prompt_reply(&received("{\"response\":\"Hel\"}\n{\"response\":\"lo\"}"));
    assert_eq!(r, Ok("Hello".to_string()));
}

#[test]
fn prompt_joins_crlf_line_chunks_and_skips_bad_lines() {
    let r = prompt_reply(&received(
        "{\"response\":\"a\",\"done\":false}\r\nnoise\r\n{\"done\":true}\r\n{\"response\":\"b\"}\r\n",
    ));
    assert_eq!(r, Ok("ab".to_string()));
}

#[test]
fn prompt_single_object() {
    let r = prompt_reply(&received("{\"response\":\"Hi\"}"));
    assert_eq!(r, Ok("Hi".to_string()));
}

#[test]
fn prompt_falls_back_to_the_whole_body() {
    let r = prompt_reply(&received("{\n  \"model\": \"m\",\n  \"response\": \"Hi\"\n}"));
    assert_eq!(r, Ok("Hi".to_string()));
}

#[test]
fn prompt_without_text_is_an_empty_response() {
    let body = "{\"done\":true}\n{\"error\":\"x\"}";
    let r = prompt_reply(&received(body));
    assert_eq!(r, Err(ClientError::EmptyResponse(body.to_string())));
}

#[test]
fn prompt_with_only_empty_chunks_is_an_empty_response() {
    let body = "{\"response\":\"\"}";
    assert_eq!(prompt_reply(&received(body)), Err(ClientError::EmptyResponse(body.to_string())));
}

#[test]
fn prompt_without_body_is_a_protocol_error() {
    let r = prompt_reply(&Exchange::Received("HTTP/1.1 500\r\n".to_string()));
    assert_eq!(
        r,
        Err(ClientError::Protocol("Invalid HTTP response (missing body)".to_string()))
    );
}

#[test]
fn prompt_transport_failures() {
    assert_eq!(
        prompt_reply(&Exchange::Unreachable("refused".to_string())),
        Err(ClientError::Connection("refused".to_string()))
    );
    assert_eq!(
        prompt_reply(&Exchange::ReadFailed("reset".to_string())),
        Err(ClientError::Transport("reset".to_string()))
    );
}

#[test]
fn body_starts_after_the_first_blank_line() {
    let cs = chars_of("HTTP/1.1 200 OK\r\n\r\nab\r\n\r\ncd");
    assert_eq!(body_start(&cs), Some(19));
    assert_eq!(body_start(&chars_of("no blank line\r\n")), None);
    assert_eq!(body_start(&chars_of("\r\n\r\n")), Some(4));
}

#[test]
fn present_and_joined_texts() {
    let items = vec![Some("a".to_string()), None, Some("bc".to_string()), Some(String::new())];
    assert_eq!(present_texts(&items), vec!["a".to_string(), "bc".to_string(), String::new()]);
    assert_eq!(join_texts(&items), "abc");
    assert_eq!(join_texts(&vec![]), "");
}

#[test]
fn settle_reply_prefers_chunks_then_whole_body() {
    assert_eq!(settle_reply("ab".to_string(), Some("x".to_string()), "b".to_string()), Ok("ab".to_string()));
    assert_eq!(settle_reply(String::new(), Some("x".to_string()), "b".to_string()), Ok("x".to_string()));
    assert_eq!(
        settle_reply(String::new(), Some(String::new()), "b".to_string()),
        Err(ClientError::EmptyResponse("b".to_string()))
    );
    assert_eq!(
        settle_reply(String::new(), None, "raw".to_string()),
        Err(ClientError::EmptyResponse("raw".to_string()))
    );
}
