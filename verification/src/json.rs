//! The JSON documents that travel over the queues.
//!
//! The documents are read and written by `serde_json`; this module names
//! what it gives back and states, over those names, which messages hold a
//! request.

use crate::text::opt_view;
use crate::types::{
    InvocationContext, InvocationContextView, RequestPayload, RequestPayloadView,
};
use serde_json::Value;
use vstd::prelude::*;
use vstd::string::StringExecFns;

verus! {

/// The compact JSON text of the member `key` of the JSON object `text`, as
/// `serde_json` reads and writes it. There is none where `text` is not a
/// JSON document, is no object or has no such member.
pub uninterp spec fn json_member_text(text: Seq<char>, key: Seq<char>) -> Option<Seq<char>>;

/// The string that the JSON document `text` is, where it is one.
pub uninterp spec fn json_string_value(text: Seq<char>) -> Option<Seq<char>>;

/// The integer that the JSON document `text` is, where it is one that fits
/// in 64 bits with a sign.
pub uninterp spec fn json_integer_value(text: Seq<char>) -> Option<i64>;

/// The compact JSON text of the document `text`, where it is a JSON
/// document.
pub uninterp spec fn json_compact_text(text: Seq<char>) -> Option<Seq<char>>;

/// Parses `text` with `serde_json::from_str` as a `Value`, looks `key` up
/// with `Value::get` and writes the member with `serde_json::to_string`.
#[verifier::external_body]
fn json_member(text: &str, key: &str) -> (r: Option<String>)
    ensures
        opt_view(r) == json_member_text(text@, key@),
{
    match serde_json::from_str::<Value>(text) {
        Ok(document) => match document.get(key) {
            Some(member) => match serde_json::to_string(member) {
                Ok(written) => Some(written),
                Err(_) => None,
            },
            None => None,
        },
        Err(_) => None,
    }
}

/// Parses `text` with `serde_json::from_str` as a `String`.
#[verifier::external_body]
fn json_string(text: &str) -> (r: Option<String>)
    ensures
        opt_view(r) == json_string_value(text@),
{
    match serde_json::from_str::<String>(text) {
        Ok(value) => Some(value),
        Err(_) => None,
    }
}

/// Parses `text` with `serde_json::from_str` as an `i64`.
#[verifier::external_body]
fn json_integer(text: &str) -> (r: Option<i64>)
    ensures
        r == json_integer_value(text@),
{
    match serde_json::from_str::<i64>(text) {
        Ok(value) => Some(value),
        Err(_) => None,
    }
}

/// Parses `text` with `serde_json::from_str` as a `Value` and writes it
/// with `serde_json::to_string`.
#[verifier::external_body]
pub(crate) fn json_compact(text: &str) -> (r: Option<String>)
    ensures
        opt_view(r) == json_compact_text(text@),
{
    match serde_json::from_str::<Value>(text) {
        Ok(document) => match serde_json::to_string(&document) {
            Ok(written) => Some(written),
            Err(_) => None,
        },
        Err(_) => None,
    }
}

/// The trace id that the member text `member` gives: none for `null`, else
/// the string that it is. The outer `None` says that it is neither.
pub open spec fn trace_id_of(member: Seq<char>) -> Option<Option<Seq<char>>> {
    if member == "null"@ {
        Some(None)
    } else {
        match json_string_value(member) {
            Some(id) => Some(Some(id)),
            None => None,
        }
    }
}

/// The context that the JSON object `ctx` holds. It has the members
/// `request_id`, `deadline`, `invoked_function_arn`, `xray_trace_id`,
/// `client_context`, `identity` and `env_config`; the first four are read,
/// the others only have to be there.
pub open spec fn context_of(ctx: Seq<char>) -> Option<InvocationContextView> {
    match (
        json_member_text(ctx, "request_id"@),
        json_member_text(ctx, "deadline"@),
        json_member_text(ctx, "invoked_function_arn"@),
        json_member_text(ctx, "xray_trace_id"@),
    ) {
        (Some(request_id), Some(deadline), Some(arn), Some(trace)) => {
            if json_member_text(ctx, "client_context"@) is Some && json_member_text(
                ctx,
                "identity"@,
            ) is Some && json_member_text(ctx, "env_config"@) is Some {
                match (
                    json_string_value(request_id),
                    json_integer_value(deadline),
                    json_string_value(arn),
                    trace_id_of(trace),
                ) {
                    (Some(request_id), Some(deadline_ms), Some(invoked_function_arn), Some(
                        xray_trace_id,
                    )) => Some(
                        InvocationContextView {
                            request_id,
                            deadline_ms,
                            invoked_function_arn,
                            xray_trace_id,
                        },
                    ),
                    _ => None,
                }
            } else {
                None
            }
        },
        _ => None,
    }
}

/// The request that the message body `body` holds: a JSON object with the
/// members `event`, any JSON value, and `ctx`, a context. The event is kept
/// as compact JSON text.
pub open spec fn request_of(body: Seq<char>) -> Option<RequestPayloadView> {
    match (json_member_text(body, "event"@), json_member_text(body, "ctx"@)) {
        (Some(event), Some(ctx)) => match context_of(ctx) {
            Some(ctx) => Some(RequestPayloadView { event, ctx }),
            None => None,
        },
        _ => None,
    }
}

/// The view of an optional request.
pub open spec fn opt_request_view(r: Option<RequestPayload>) -> Option<RequestPayloadView> {
    match r {
        Some(p) => Some(p@),
        None => None,
    }
}

/// The view of an optional context.
pub open spec fn opt_context_view(r: Option<InvocationContext>) -> Option<InvocationContextView> {
    match r {
        Some(c) => Some(c@),
        None => None,
    }
}

/// Reads the trace id out of its member text.
fn parse_trace_id(member: &String) -> (r: Option<Option<String>>)
    ensures
        match r {
            Some(id) => trace_id_of(member@) == Some(opt_view(id)),
            None => trace_id_of(member@) is None,
        },
{
    let null = String::from_str("null");
    if *member == null {
        return Some(None);
    }
    match json_string(member.as_str()) {
        Some(id) => Some(Some(id)),
        None => None,
    }
}

/// Reads the context of an invocation out of the JSON object `ctx`.
pub fn parse_context(ctx: &str) -> (r: Option<InvocationContext>)
    ensures
        opt_context_view(r) == context_of(ctx@),
{
    let request_id = match json_member(ctx, "request_id") {
        Some(v) => v,
        None => {
            return None;
        },
    };
    let deadline = match json_member(ctx, "deadline") {
        Some(v) => v,
        None => {
            return None;
        },
    };
    let arn = match json_member(ctx, "invoked_function_arn") {
        Some(v) => v,
        None => {
            return None;
        },
    };
    let trace = match json_member(ctx, "xray_trace_id") {
        Some(v) => v,
        None => {
            return None;
        },
    };
    if json_member(ctx, "client_context").is_none() || json_member(ctx, "identity").is_none()
        || json_member(ctx, "env_config").is_none() {
        return None;
    }
    let request_id = match json_string(request_id.as_str()) {
        Some(v) => v,
        None => {
            return None;
        },
    };
    let deadline_ms = match json_integer(deadline.as_str()) {
        Some(v) => v,
        None => {
            return None;
        },
    };
    let invoked_function_arn = match json_string(arn.as_str()) {
        Some(v) => v,
        None => {
            return None;
        },
    };
    let xray_trace_id = match parse_trace_id(&trace) {
        Some(v) => v,
        None => {
            return None;
        },
    };
    Some(InvocationContext { request_id, deadline_ms, invoked_function_arn, xray_trace_id })
}

/// Reads a request out of the body of a request-queue message.
pub fn parse_request(body: &str) -> (r: Option<RequestPayload>)
    ensures
        opt_request_view(r) == request_of(body@),
{
    let event = match json_member(body, "event") {
        Some(v) => v,
        None => {
            return None;
        },
    };
    let ctx_text = match json_member(body, "ctx") {
        Some(v) => v,
        None => {
            return None;
        },
    };
    match parse_context(ctx_text.as_str()) {
        Some(ctx) => Some(RequestPayload { event, ctx }),
        None => None,
    }
}

} // verus!
