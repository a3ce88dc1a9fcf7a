use flate2::read::GzEncoder;
use flate2::Compression;
use runtime_emulator::codec::{compress_output, DecodeError};
use runtime_emulator::proxy::{
    default_queue_url, my_handler, proxy_step, purge_response_queue, Outcome, ProxyAction,
    ProxyError, ProxyState, ProxyStep, PURGE_BATCH, RESPONSE_WAIT_SECONDS,
};
use runtime_emulator::types::QueueMessage;
use std::io::Read;

const ARN: &str = "arn:aws:lambda:us-east-1:512295225992:function:my-lambda";
const REQ: &str = "https://sqs.us-east-1/512295225992/proxy_lambda_req";
const RESP: &str = "https://sqs.us-east-1/512295225992/proxy_lambda_resp";
const BODY: &str = "{\"event\":{\"command\":\"ping\"},\"ctx\":{}}";

fn s(v: &str) -> String {
    String::from(v)
}

fn msg(body: Option<&str>, receipt: Option<&str>) -> QueueMessage {
    QueueMessage { body: body.map(String::from), receipt_handle: receipt.map(String::from) }
}

fn receive(queue_url: &str, max_messages: i32, wait_seconds: i32) -> ProxyAction {
    ProxyAction::Receive { queue_url: s(queue_url), max_messages, wait_seconds }
}

fn expect(step: ProxyStep, action: ProxyAction) -> ProxyState {
    match step {
        ProxyStep::Perform { state, action: asked } => {
            assert_eq!(asked, action);
            state
        }
        other => panic!("{:?}", other),
    }
}

/// Runs an invocation up to the wait for the response, with an empty queue.
fn until_waiting(response_queue_env: Option<&str>, queue_url: &str) -> ProxyState {
    let step = my_handler(s(ARN), None, response_queue_env.map(String::from), s(BODY));
    let state = expect(step, ProxyAction::Send { queue_url: s(REQ), body: s(BODY) });
    let state = expect(proxy_step(state, Outcome::Done), receive(queue_url, 10, 0));
    expect(proxy_step(state, Outcome::Done), receive(queue_url, 1, 20))
}

#[test]
fn proxy_constants() {
    assert_eq!(PURGE_BATCH, 10);
    assert_eq!(RESPONSE_WAIT_SECONDS, 20);
}

#[test]
fn default_queue_url_from_arn() {
    assert_eq!(default_queue_url(ARN, "proxy_lambda_req"), Some(s(REQ)));
    assert_eq!(default_queue_url(ARN, "proxy_lambda_resp"), Some(s(RESP)));
    assert_eq!(default_queue_url("a:b:c:d:e:f:g", "q"), Some(s("https://sqs.d/e/q")));
    assert_eq!(default_queue_url("::::::", "q"), Some(s("https://sqs.//q")));
}

#[test]
fn arn_must_have_seven_parts() {
    assert_eq!(default_queue_url("arn:aws:lambda:us-east-1:512295225992:function", "q"), None);
    assert_eq!(default_queue_url("arn:aws:lambda:us-east-1:512295225992:function:f:1", "q"), None);
    assert_eq!(default_queue_url("", "q"), None);
}

#[test]
fn invocation_fails_on_a_bad_arn_without_a_configured_queue() {
    assert_eq!(my_handler(s("arn:aws"), None, None, s(BODY)), ProxyStep::Fail(ProxyError::Context));
}

#[test]
fn configured_request_queue_needs_no_arn() {
    let step = my_handler(s("arn:aws"), Some(s("https://q/req")), Some(s("https://q/resp")), s(BODY));
    let state = expect(step, ProxyAction::Send { queue_url: s("https://q/req"), body: s(BODY) });
    expect(proxy_step(state, Outcome::Done), receive("https://q/resp", 10, 0));
}

#[test]
fn bad_arn_fails_when_the_response_queue_is_derived() {
    let step = my_handler(s("arn:aws"), Some(s("https://q/req")), None, s(BODY));
    let state = expect(step, ProxyAction::Send { queue_url: s("https://q/req"), body: s(BODY) });
    assert_eq!(proxy_step(state, Outcome::Done), ProxyStep::Fail(ProxyError::Context));
}

#[test]
fn failed_send_fails_the_invocation() {
    let step = my_handler(s(ARN), None, None, s(BODY));
    let state = expect(step, ProxyAction::Send { queue_url: s(REQ), body: s(BODY) });
    assert_eq!(proxy_step(state, Outcome::Failed), ProxyStep::Fail(ProxyError::Send));
}

#[test]
fn happy_path_proxy() {
    let state = until_waiting(None, RESP);
    // nothing yet: asked again, both for a missing and for an empty list
    let state = expect(proxy_step(state, Outcome::Done), receive(RESP, 1, 20));
    let state = expect(proxy_step(state, Outcome::Messages(Vec::new())), receive(RESP, 1, 20));
    let arrived = Outcome::Messages(vec![msg(Some("{\"answer\":\"pong\"}"), Some("r-9"))]);
    let state = expect(
        proxy_step(state, arrived),
        ProxyAction::Delete { queue_url: s(RESP), receipt_handle: Some(s("r-9")) },
    );
    assert_eq!(state, ProxyState::Acknowledging { body: s("{\"answer\":\"pong\"}") });
    assert_eq!(
        proxy_step(state, Outcome::Done),
        ProxyStep::Return(Some(s("{\"answer\":\"pong\"}")))
    );
}

#[test]
fn oversize_response_is_decoded_by_the_proxy() {
    let document = format!("{{\"data\":\"{}\"}}", "x".repeat(299_989));
    assert_eq!(document.len(), 300_000);
    let sent = compress_output(document.clone()).unwrap();
    assert!(sent.len() <= 262144);
    let state = until_waiting(None, RESP);
    let state = expect(
        proxy_step(state, Outcome::Messages(vec![msg(Some(&sent), Some("r-1"))])),
        ProxyAction::Delete { queue_url: s(RESP), receipt_handle: Some(s("r-1")) },
    );
    assert_eq!(proxy_step(state, Outcome::Done), ProxyStep::Return(Some(document)));
}

#[test]
fn missing_response_queue() {
    let step = my_handler(s(ARN), None, None, s(BODY));
    let state = expect(step, ProxyAction::Send { queue_url: s(REQ), body: s(BODY) });
    let state = expect(proxy_step(state, Outcome::Done), receive(RESP, 10, 0));
    assert_eq!(proxy_step(state, Outcome::Failed), ProxyStep::Return(None));
}

#[test]
fn failed_purge_of_a_configured_queue_fails_the_invocation() {
    let step = my_handler(s(ARN), None, Some(s("https://q/resp")), s(BODY));
    let state = expect(step, ProxyAction::Send { queue_url: s(REQ), body: s(BODY) });
    let state = expect(proxy_step(state, Outcome::Done), receive("https://q/resp", 10, 0));
    assert_eq!(proxy_step(state, Outcome::Failed), ProxyStep::Fail(ProxyError::PurgeReceive));
}

#[test]
fn stale_response_purge() {
    let step = my_handler(s(ARN), None, None, s(BODY));
    let state = expect(step, ProxyAction::Send { queue_url: s(REQ), body: s(BODY) });
    let state = expect(proxy_step(state, Outcome::Done), receive(RESP, 10, 0));
    let stale = Outcome::Messages(vec![msg(Some("\"stale\""), Some("old-1"))]);
    let state = expect(
        proxy_step(state, stale),
        ProxyAction::Delete { queue_url: s(RESP), receipt_handle: Some(s("old-1")) },
    );
    // after the delete the queue is read again, until it is empty
    let state = expect(proxy_step(state, Outcome::Done), receive(RESP, 10, 0));
    let state = expect(proxy_step(state, Outcome::Messages(Vec::new())), receive(RESP, 1, 20));
    let fresh = Outcome::Messages(vec![msg(Some("{\"fresh\":true}"), Some("new-1"))]);
    let state = expect(
        proxy_step(state, fresh),
        ProxyAction::Delete { queue_url: s(RESP), receipt_handle: Some(s("new-1")) },
    );
    assert_eq!(proxy_step(state, Outcome::Done), ProxyStep::Return(Some(s("{\"fresh\":true}"))));
}

#[test]
fn stale_messages_are_deleted_in_order() {
    let stale = vec![msg(None, Some("a")), msg(None, None), msg(None, Some("c"))];
    let state = expect(
        purge_response_queue(s(RESP), true, stale),
        ProxyAction::Delete { queue_url: s(RESP), receipt_handle: Some(s("a")) },
    );
    let state = expect(
        proxy_step(state, Outcome::Done),
        ProxyAction::Delete { queue_url: s(RESP), receipt_handle: None },
    );
    let state = expect(
        proxy_step(state, Outcome::Done),
        ProxyAction::Delete { queue_url: s(RESP), receipt_handle: Some(s("c")) },
    );
    assert_eq!(state, ProxyState::PurgeDeleting { queue_url: s(RESP), explicit: true, rest: Vec::new() });
    expect(proxy_step(state, Outcome::Done), receive(RESP, 10, 0));
}

#[test]
fn failed_delete_while_purging() {
    let stale = vec![msg(None, Some("a"))];
    let state = expect(
        purge_response_queue(s(RESP), true, stale.clone()),
        ProxyAction::Delete { queue_url: s(RESP), receipt_handle: Some(s("a")) },
    );
    assert_eq!(proxy_step(state, Outcome::Failed), ProxyStep::Fail(ProxyError::PurgeDelete));
    let state = expect(
        purge_response_queue(s(RESP), false, stale),
        ProxyAction::Delete { queue_url: s(RESP), receipt_handle: Some(s("a")) },
    );
    assert_eq!(proxy_step(state, Outcome::Failed), ProxyStep::Return(None));
}

#[test]
fn failed_receive_while_waiting() {
    let state = until_waiting(None, RESP);
    assert_eq!(proxy_step(state, Outcome::Failed), ProxyStep::Fail(ProxyError::Receive));
}

#[test]
fn response_without_receipt_or_body() {
    let state = until_waiting(None, RESP);
    assert_eq!(
        proxy_step(state.clone(), Outcome::Messages(vec![msg(Some("{}"), None)])),
        ProxyStep::Fail(ProxyError::MissingReceipt)
    );
    assert_eq!(
        proxy_step(state.clone(), Outcome::Messages(vec![msg(None, None)])),
        ProxyStep::Fail(ProxyError::MissingReceipt)
    );
    assert_eq!(
        proxy_step(state, Outcome::Messages(vec![msg(None, Some("r"))])),
        ProxyStep::Fail(ProxyError::MissingBody)
    );
}

#[test]
fn receipt_of_the_first_and_body_of_the_last_message() {
    let state = until_waiting(None, RESP);
    let list = vec![msg(Some("{\"n\":1}"), Some("r-1")), msg(Some("{\"n\":2}"), Some("r-2"))];
    let state = expect(
        proxy_step(state, Outcome::Messages(list)),
        ProxyAction::Delete { queue_url: s(RESP), receipt_handle: Some(s("r-1")) },
    );
    assert_eq!(state, ProxyState::Acknowledging { body: s("{\"n\":2}") });
}

#[test]
fn response_that_cannot_be_decoded() {
    let state = until_waiting(None, RESP);
    assert_eq!(
        proxy_step(state.clone(), Outcome::Messages(vec![msg(Some("\"pong\""), Some("r"))])),
        ProxyStep::Fail(ProxyError::Decode(DecodeError::Base58))
    );
    assert_eq!(
        proxy_step(state.clone(), Outcome::Messages(vec![msg(Some("abc"), Some("r"))])),
        ProxyStep::Fail(ProxyError::Decode(DecodeError::Gzip))
    );
    let mut packed = Vec::new();
    GzEncoder::new(&[0xffu8][..], Compression::fast()).read_to_end(&mut packed).unwrap();
    let text = bs58::encode(packed).into_string();
    assert_eq!(
        proxy_step(state, Outcome::Messages(vec![msg(Some(&text), Some("r"))])),
        ProxyStep::Fail(ProxyError::Decode(DecodeError::Utf8))
    );
}

#[test]
fn failed_delete_of_the_response() {
    let state = until_waiting(None, RESP);
    let state = expect(
        proxy_step(state, Outcome::Messages(vec![msg(Some("{}"), Some("r"))])),
        ProxyAction::Delete { queue_url: s(RESP), receipt_handle: Some(s("r")) },
    );
    assert_eq!(proxy_step(state, Outcome::Failed), ProxyStep::Fail(ProxyError::Delete));
}

#[test]
fn response_that_is_no_json_fails_after_it_was_deleted() {
    for body in ["", "{oops", "  {\"a\":}"] {
        let state = until_waiting(None, RESP);
        let state = expect(
            proxy_step(state, Outcome::Messages(vec![msg(Some(body), Some("r"))])),
            ProxyAction::Delete { queue_url: s(RESP), receipt_handle: Some(s("r")) },
        );
        assert_eq!(proxy_step(state, Outcome::Done), ProxyStep::Fail(ProxyError::Json));
    }
}

#[test]
fn response_is_returned_as_compact_json() {
    let state = until_waiting(None, RESP);
    let state = expect(
        proxy_step(state, Outcome::Messages(vec![msg(Some(" { \"a\" : [ 1, 2 ] } "), Some("r"))])),
        ProxyAction::Delete { queue_url: s(RESP), receipt_handle: Some(s("r")) },
    );
    assert_eq!(proxy_step(state, Outcome::Done), ProxyStep::Return(Some(s("{\"a\":[1,2]}"))));
}

#[test]
fn compressed_scalar_response_is_returned() {
    let mut packed = Vec::new();
    GzEncoder::new(&b"\"pong\""[..], Compression::fast()).read_to_end(&mut packed).unwrap();
    let text = bs58::encode(packed).into_string();
    let state = until_waiting(None, RESP);
    let state = expect(
        proxy_step(state, Outcome::Messages(vec![msg(Some(&text), Some("r"))])),
        ProxyAction::Delete { queue_url: s(RESP), receipt_handle: Some(s("r")) },
    );
    assert_eq!(proxy_step(state, Outcome::Done), ProxyStep::Return(Some(s("\"pong\""))));
}
