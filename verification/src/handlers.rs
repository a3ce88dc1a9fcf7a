//! The three endpoints of the runtime interface: which one a request is
//! for, and what each of them decides.

use crate::codec::{byte_len, MAX_MESSAGE_BYTES};
use crate::config::{PayloadSources, PayloadSourcesView};
use crate::guard::{guard_step, GuardEvent, Mode, RerunGuard};
use crate::queue::{action_views, output_of, send_output, QueueAction, QueueActionView};
use crate::text::{ends_with, opt_view, str_ends_with};
use crate::types::PendingInvocation;
use regex::Regex;
use vstd::prelude::*;
use vstd::string::StringExecFns;
use vstd::utf8::*;

verus! {

/// The request id given to the handler for a payload from a local file.
pub const LOCAL_REQUEST_ID: &'static str = "local-request-id";

/// The deadline given with a payload from a local file: far in the future.
pub const LOCAL_DEADLINE_MS: i64 = 2035313041000;

/// The function name given with a payload from a local file.
pub const LOCAL_FUNCTION_ARN: &'static str = "from-local-payload";

/// The trace id given where the invocation has none.
pub const PLACEHOLDER_TRACE_ID: &'static str =
    "Root=0-00000000-000000000000000000000000;Parent=0000000000000000;Sampled=0;Lineage=00000000:0";

/// The pattern that a response path has; its group is the receipt handle.
pub const RECEIPT_PATTERN: &'static str = "/runtime/invocation/(.+)/response";

/// Seconds for which a parked request is suspended: about a year.
pub const PARK_SECONDS: u64 = 31563000;

/// The status of a reply that reports success.
pub const STATUS_OK: u16 = 200;

/// The status of the reply to an error report.
pub const STATUS_ERROR: u16 = 500;

/// The method of a request, as far as the emulator tells methods apart.
#[derive(Clone, Copy, Debug, PartialEq, Eq, Structural)]
pub enum Method {
    Get,
    Post,
    Other,
}

/// The endpoint that a request is for.
#[derive(Clone, Copy, Debug, PartialEq, Eq, Structural)]
pub enum Route {
    /// The handler asks for the next invocation.
    NextInvocation,
    /// The handler reports the result of an invocation.
    Response,
    /// The handler reports an error.
    Error,
    /// A POST to an unknown path: treated as an error report, with a
    /// warning.
    Unknown,
    /// Any other request: the handler process does not speak the protocol.
    Violation,
}

/// The endpoint for a request with `method` to `path`.
pub open spec fn route_of(method: Method, path: Seq<char>) -> Route {
    if method == Method::Get && ends_with(path, "/invocation/next"@) {
        Route::NextInvocation
    } else if method != Method::Post {
        Route::Violation
    } else if ends_with(path, "/response"@) {
        Route::Response
    } else if ends_with(path, "/error"@) {
        Route::Error
    } else {
        Route::Unknown
    }
}

/// Finds the endpoint for a request.
pub fn lambda_api_handler(method: Method, path: &str) -> (r: Route)
    ensures
        r == route_of(method, path@),
{
    if method == Method::Get && str_ends_with(path, "/invocation/next") {
        return Route::NextInvocation;
    }
    if method != Method::Post {
        return Route::Violation;
    }
    if str_ends_with(path, "/response") {
        return Route::Response;
    }
    if str_ends_with(path, "/error") {
        return Route::Error;
    }
    Route::Unknown
}

/// An invocation as it is handed to the handler: the body of the reply and
/// the values of its four headers.
#[derive(Clone, Debug, PartialEq, Eq)]
pub struct Invocation {
    /// `lambda-runtime-aws-request-id`
    pub request_id: String,
    /// `lambda-runtime-deadline-ms`
    pub deadline_ms: i64,
    /// `lambda-runtime-invoked-function-arn`
    pub invoked_function_arn: String,
    /// `lambda-runtime-trace-id`
    pub trace_id: String,
    pub body: String,
}

/// What to do with a request for the next invocation.
#[derive(Clone, Debug, PartialEq, Eq)]
pub enum NextStep {
    /// Suspend the request: the payload has been handled already.
    Park,
    /// Reply at once with this invocation.
    Reply(Invocation),
    /// Wait for a message on the request queue.
    Poll,
}

/// The invocation made of a payload file.
pub fn local_invocation(payload: &String) -> (r: Invocation)
    ensures
        r.request_id@ == LOCAL_REQUEST_ID@,
        r.deadline_ms == LOCAL_DEADLINE_MS,
        r.invoked_function_arn@ == LOCAL_FUNCTION_ARN@,
        r.trace_id@ == PLACEHOLDER_TRACE_ID@,
        r.body@ == payload@,
{
    Invocation {
        request_id: String::from_str(LOCAL_REQUEST_ID),
        deadline_ms: LOCAL_DEADLINE_MS,
        invoked_function_arn: String::from_str(LOCAL_FUNCTION_ARN),
        trace_id: String::from_str(PLACEHOLDER_TRACE_ID),
        body: payload.clone(),
    }
}

/// The invocation made of a request message. The request id is the receipt
/// of the message, by which the request is deleted when it is answered.
pub fn api_next_invocation(pending: PendingInvocation) -> (r: Invocation)
    ensures
        r.request_id@ == pending.receipt_handle@,
        r.deadline_ms == pending.ctx.deadline_ms,
        r.invoked_function_arn@ == pending.ctx.invoked_function_arn@,
        r.trace_id@ == (match pending.ctx.xray_trace_id {
            Some(t) => t@,
            None => PLACEHOLDER_TRACE_ID@,
        }),
        r.body@ == pending.payload@,
        byte_len(pending.payload@) <= MAX_MESSAGE_BYTES ==> byte_len(r.body@) <= MAX_MESSAGE_BYTES,
{
    let trace_id = match pending.ctx.xray_trace_id {
        Some(t) => t,
        None => String::from_str(PLACEHOLDER_TRACE_ID),
    };
    Invocation {
        request_id: pending.receipt_handle,
        deadline_ms: pending.ctx.deadline_ms,
        invoked_function_arn: pending.ctx.invoked_function_arn,
        trace_id,
        body: pending.payload,
    }
}

/// Decides a request for the next invocation. A set guard is cleared and
/// the request parked; else a local payload is replied at once, and a
/// remote one is waited for.
pub fn handler(guard: &mut RerunGuard, sources: &PayloadSources) -> (r: NextStep)
    ensures
        final(guard)@ == false,
        old(guard)@ ==> r is Park,
        !old(guard)@ ==> match *sources {
            PayloadSources::Local(local) => r matches NextStep::Reply(inv) && inv.request_id@
                == LOCAL_REQUEST_ID@ && inv.deadline_ms == LOCAL_DEADLINE_MS
                && inv.invoked_function_arn@ == LOCAL_FUNCTION_ARN@ && inv.trace_id@
                == PLACEHOLDER_TRACE_ID@ && inv.body@ == local.payload@,
            PayloadSources::Remote(_) => r is Poll,
        },
{
    if guard.block_if_rerun() {
        return NextStep::Park;
    }
    match sources {
        PayloadSources::Local(local) => NextStep::Reply(local_invocation(&local.payload)),
        PayloadSources::Remote(_) => NextStep::Poll,
    }
}

#[verifier::external_type_specification]
#[verifier::external_body]
pub struct ExRegexError(regex::Error);

/// Whether the `regex` crate accepts `pattern` as a regular expression.
pub uninterp spec fn regex_compiles(pattern: Seq<char>) -> bool;

/// What the first group of the regular expression `pattern` captures in the
/// leftmost match in `text`, as the `regex` crate finds it.
pub uninterp spec fn regex_first_group(pattern: Seq<char>, text: Seq<char>) -> Option<Seq<char>>;

/// Compiles `pattern` with `Regex::new` and, where it compiles, gives what
/// `Regex::captures` and `Captures::get(1)` find in `text`.
#[verifier::external_body]
fn first_capture(pattern: &str, text: &str) -> (r: Result<Option<String>, regex::Error>)
    ensures
        r is Ok <==> regex_compiles(pattern@),
        r matches Ok(group) ==> opt_view(group) == regex_first_group(pattern@, text@),
{
    match Regex::new(pattern) {
        Ok(re) => match re.captures(text) {
            Some(groups) => match groups.get(1) {
                Some(m) => Ok(Some(m.as_str().to_owned())),
                None => Ok(None),
            },
            None => Ok(None),
        },
        Err(e) => Err(e),
    }
}

/// The receipt handle of a search of a response path: what the search
/// found, and nothing where the pattern was refused.
pub fn receipt_of_capture(capture: Result<Option<String>, regex::Error>) -> (r: Option<String>)
    ensures
        r == (match capture {
            Ok(group) => group,
            Err(_) => None,
        }),
{
    match capture {
        Ok(group) => group,
        Err(_) => None,
    }
}

/// The receipt handle in the path of a response: what the group of the
/// pattern captures.
pub open spec fn receipt_in(path: Seq<char>) -> Option<Seq<char>> {
    if regex_compiles(RECEIPT_PATTERN@) {
        regex_first_group(RECEIPT_PATTERN@, path)
    } else {
        None
    }
}

/// The receipt handle that the path of a response carries.
pub fn receipt_handle_of(path: &str) -> (r: Option<String>)
    ensures
        opt_view(r) == receipt_in(path@),
{
    receipt_of_capture(first_capture(RECEIPT_PATTERN, path))
}

/// Why a response of the handler could not be dealt with.
#[derive(Clone, Copy, Debug, PartialEq, Eq, Structural)]
pub enum ResponseError {
    /// The path carries no receipt handle.
    NoReceipt,
    /// The body is not UTF-8.
    NotUtf8,
    /// The body is too long for a message and could not be compressed.
    Encode,
}

/// What to do with a response of the handler.
#[derive(Clone, Debug, PartialEq, Eq)]
pub struct ResponsePlan {
    /// The status of the reply to the handler.
    pub status: u16,
    /// The operations on the queues, to be made in order before the reply.
    pub actions: Vec<QueueAction>,
}

pub struct ResponsePlanView {
    pub status: u16,
    pub actions: Seq<QueueActionView>,
}

impl View for ResponsePlan {
    type V = ResponsePlanView;

    open spec fn view(&self) -> ResponsePlanView {
        ResponsePlanView { status: self.status, actions: action_views(self.actions@) }
    }
}

/// What is done with a response of the handler that came with
/// `receipt_handle` in its path and with `body`.
///
/// A response without a receipt, or with a body that is not UTF-8, is
/// refused. In local mode nothing is sent. In remote mode the body is
/// delivered as the queue layer plans it. The reply has status 200.
pub open spec fn response_of(
    sources: PayloadSourcesView,
    receipt_handle: Option<Seq<char>>,
    body: Seq<u8>,
) -> Result<ResponsePlanView, ResponseError> {
    match receipt_handle {
        None => Err(ResponseError::NoReceipt),
        Some(receipt) => if !valid_utf8(body) {
            Err(ResponseError::NotUtf8)
        } else {
            match sources {
                PayloadSourcesView::Local(_) => Ok(
                    ResponsePlanView { status: STATUS_OK, actions: Seq::empty() },
                ),
                PayloadSourcesView::Remote(remote) => match output_of(
                    remote,
                    decode_utf8(body),
                    receipt,
                ) {
                    Ok(actions) => Ok(ResponsePlanView { status: STATUS_OK, actions }),
                    Err(_) => Err(ResponseError::Encode),
                },
            }
        },
    }
}

/// `r` stands for the same outcome as `expected`.
pub open spec fn response_result_is(
    r: Result<ResponsePlan, ResponseError>,
    expected: Result<ResponsePlanView, ResponseError>,
) -> bool {
    match r {
        Ok(plan) => expected == Ok::<ResponsePlanView, ResponseError>(plan@),
        Err(e) => expected == Err::<ResponsePlanView, ResponseError>(e),
    }
}

/// The guard event that a response in the given mode is.
pub open spec fn response_event(sources: PayloadSourcesView) -> GuardEvent {
    match sources {
        PayloadSourcesView::Local(_) => GuardEvent::Response(Mode::Local),
        PayloadSourcesView::Remote(_) => GuardEvent::Response(Mode::Remote),
    }
}

/// The guard after a response: a response that was dealt with is recorded,
/// one that was refused leaves the guard as it was.
pub open spec fn guard_after_response(set: bool, sources: PayloadSourcesView, dealt_with: bool) -> bool {
    if dealt_with {
        guard_step(set, response_event(sources))
    } else {
        set
    }
}

/// Decides a response of the handler, given the receipt handle found in
/// its path and its body.
pub fn response_with_receipt(
    guard: &mut RerunGuard,
    sources: &PayloadSources,
    receipt_handle: Option<String>,
    body: Vec<u8>,
) -> (r: Result<ResponsePlan, ResponseError>)
    ensures
        response_result_is(r, response_of(sources@, opt_view(receipt_handle), body@)),
        final(guard)@ == guard_after_response(old(guard)@, sources@, r is Ok),
{
    let receipt = match receipt_handle {
        Some(v) => v,
        None => {
            return Err(ResponseError::NoReceipt);
        },
    };
    let text = match String::from_utf8(body) {
        Ok(v) => v,
        Err(_) => {
            return Err(ResponseError::NotUtf8);
        },
    };
    match sources {
        PayloadSources::Local(_) => {
            guard.record_response(Mode::Local);
            let actions: Vec<QueueAction> = Vec::new();
            assert(action_views(actions@) =~= Seq::<QueueActionView>::empty());
            Ok(ResponsePlan { status: STATUS_OK, actions })
        },
        PayloadSources::Remote(remote) => {
            match send_output(remote, text, receipt) {
                Ok(actions) => {
                    guard.record_response(Mode::Remote);
                    Ok(ResponsePlan { status: STATUS_OK, actions })
                },
                Err(_) => Err(ResponseError::Encode),
            }
        },
    }
}

/// Decides a response of the handler that was posted to `path` with
/// `body`: finds the receipt handle in the path and goes on as
/// [`response_with_receipt`] says.
pub fn api_response(
    guard: &mut RerunGuard,
    sources: &PayloadSources,
    path: &str,
    body: Vec<u8>,
) -> (r: Result<ResponsePlan, ResponseError>)
    ensures
        response_result_is(r, response_of(sources@, receipt_in(path@), body@)),
        final(guard)@ == guard_after_response(old(guard)@, sources@, r is Ok),
{
    let receipt_handle = receipt_handle_of(path);
    response_with_receipt(guard, sources, receipt_handle, body)
}

/// Decides an error report of the handler: the guard is set, and the reply
/// has status 500 and no body.
pub fn api_error(guard: &mut RerunGuard) -> (status: u16)
    ensures
        status == STATUS_ERROR,
        final(guard)@ == guard_step(old(guard)@, GuardEvent::Error),
        final(guard)@ == true,
{
    guard.record_error();
    STATUS_ERROR
}

} // verus!
