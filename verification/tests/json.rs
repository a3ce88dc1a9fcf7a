use runtime_emulator::json::{parse_context, parse_request};
use runtime_emulator::types::{InvocationContext, RequestPayload};

fn s(v: &str) -> String {
    String::from(v)
}

const CTX: &str = "{\"request_id\":\"4850539c-6316-4af1-9c47-8771cb3baeb1\",\"deadline\":1718071341165,\"invoked_function_arn\":\"arn:aws:lambda:us-east-1:512295225992:function:lambda-debug-proxy\",\"xray_trace_id\":\"Root=1-6667af77;Sampled=0\",\"client_context\":null,\"identity\":null,\"env_config\":{\"function_name\":\"lambda-debug-proxy\",\"memory\":128,\"version\":\"$LATEST\",\"log_stream\":\"s\",\"log_group\":\"g\"}}";

fn ctx() -> InvocationContext {
    InvocationContext {
        request_id: s("4850539c-6316-4af1-9c47-8771cb3baeb1"),
        deadline_ms: 1718071341165,
        invoked_function_arn: s("arn:aws:lambda:us-east-1:512295225992:function:lambda-debug-proxy"),
        xray_trace_id: Some(s("Root=1-6667af77;Sampled=0")),
    }
}

#[test]
fn context_is_read() {
    assert_eq!(parse_context(CTX), Some(ctx()));
}

#[test]
fn trace_id_may_be_null() {
    let text = CTX.replace("\"Root=1-6667af77;Sampled=0\"", "null");
    assert_eq!(parse_context(&text), Some(InvocationContext { xray_trace_id: None, ..ctx() }));
}

#[test]
fn trace_id_must_be_a_string_or_null() {
    let text = CTX.replace("\"Root=1-6667af77;Sampled=0\"", "17");
    assert_eq!(parse_context(&text), None);
}

#[test]
fn escapes_in_strings_are_resolved() {
    let text = CTX.replace("4850539c-6316-4af1-9c47-8771cb3baeb1", "a\\u0041\\n\\\"");
    assert_eq!(
        parse_context(&text),
        Some(InvocationContext { request_id: s("aA\n\""), ..ctx() })
    );
}

#[test]
fn every_member_of_the_context_is_needed() {
    let members = ["request_id", "deadline", "invoked_function_arn", "xray_trace_id",
        "client_context", "identity", "env_config"];
    for member in members {
        let text = CTX.replace(&format!("\"{}\"", member), "\"other\"");
        assert_eq!(parse_context(&text), None, "{}", member);
    }
}

#[test]
fn deadline_must_be_an_integer_of_64_bits() {
    assert_eq!(parse_context(&CTX.replace("1718071341165", "\"1718071341165\"")), None);
    assert_eq!(parse_context(&CTX.replace("1718071341165", "1.5")), None);
    assert_eq!(parse_context(&CTX.replace("1718071341165", "9223372036854775808")), None);
    assert_eq!(
        parse_context(&CTX.replace("1718071341165", "9223372036854775807")),
        Some(InvocationContext { deadline_ms: i64::MAX, ..ctx() })
    );
}

#[test]
fn context_must_be_an_object() {
    assert_eq!(parse_context("[]"), None);
    assert_eq!(parse_context("null"), None);
    assert_eq!(parse_context(""), None);
    assert_eq!(parse_context("{"), None);
}

#[test]
fn request_is_read() {
    let body = format!("{{\"event\":{{\"command\":\"ping\"}},\"ctx\":{}}}", CTX);
    assert_eq!(
        parse_request(&body),
        Some(RequestPayload { event: s("{\"command\":\"ping\"}"), ctx: ctx() })
    );
}

#[test]
fn event_may_be_any_json_value() {
    for (event, compact) in [("null", "null"), (" \"text\" ", "\"text\""), ("[ 1, 2 ]", "[1,2]"), ("17", "17")] {
        let body = format!("{{\"ctx\":{},\"event\":{}}}", CTX, event);
        assert_eq!(parse_request(&body), Some(RequestPayload { event: s(compact), ctx: ctx() }));
    }
}

#[test]
fn request_needs_event_and_context() {
    assert_eq!(parse_request(&format!("{{\"ctx\":{}}}", CTX)), None);
    assert_eq!(parse_request("{\"event\":1}"), None);
    assert_eq!(parse_request(&format!("[{}]", CTX)), None);
    assert_eq!(parse_request("{\"event\":1,\"ctx\":{}} trailing"), None);
}
