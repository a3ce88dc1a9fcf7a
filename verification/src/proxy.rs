//! The proxy function: it puts each invocation on the request queue and,
//! where there is a response queue, waits there for the answer.
//!
//! The function is written as a machine. [`my_handler`] opens an
//! invocation, and [`proxy_step`] takes the outcome of the operation last
//! asked for and gives the next one, until the invocation returns or fails.

use crate::codec::{decode_maybe_binary, decoded, DecodeError};
use crate::json::{json_compact, json_compact_text};
use crate::text::{concat2, fields, opt_view, split_fields, views};
use crate::types::{message_views, QueueMessage, QueueMessageView};
use vstd::prelude::*;
use vstd::string::StringExecFns;

verus! {

/// Messages taken at once while the response queue is emptied.
pub const PURGE_BATCH: i32 = 10;

/// Seconds to wait for the response at each request.
pub const RESPONSE_WAIT_SECONDS: i32 = 20;

/// Why an invocation of the proxy function failed.
#[derive(Clone, Copy, Debug, PartialEq, Eq, Structural)]
pub enum ProxyError {
    /// The function's ARN does not have seven parts.
    Context,
    /// The request could not be sent.
    Send,
    /// Reading the response queue failed while it was emptied.
    PurgeReceive,
    /// Deleting a stale response failed.
    PurgeDelete,
    /// Reading the response queue failed.
    Receive,
    /// The response has no receipt.
    MissingReceipt,
    /// The response has no body.
    MissingBody,
    /// The response could not be decoded.
    Decode(DecodeError),
    /// The response could not be deleted from its queue.
    Delete,
    /// The response is no JSON document.
    Json,
}

/// How the operation last asked for ended.
#[derive(Clone, Debug, PartialEq, Eq)]
pub enum Outcome {
    /// The transport failed.
    Failed,
    /// It succeeded, without a list of messages.
    Done,
    /// It succeeded, with a list of messages.
    Messages(Vec<QueueMessage>),
}

/// An operation on a queue that the proxy function asks for.
#[derive(Clone, Debug, PartialEq, Eq)]
pub enum ProxyAction {
    Send { queue_url: String, body: String },
    Receive { queue_url: String, max_messages: i32, wait_seconds: i32 },
    Delete { queue_url: String, receipt_handle: Option<String> },
}

/// Where an invocation stands while an operation is under way.
#[derive(Clone, Debug, PartialEq, Eq)]
pub enum ProxyState {
    /// The request is being sent.
    Sending { arn: String, response_queue_env: Option<String> },
    /// Stale responses are being read. `explicit` says that the
    /// environment named the queue.
    PurgeReceiving { queue_url: String, explicit: bool },
    /// A stale response is being deleted; `rest` are those still to delete.
    PurgeDeleting { queue_url: String, explicit: bool, rest: Vec<QueueMessage> },
    /// The response is being waited for.
    Waiting { queue_url: String },
    /// The response, decoded to `body`, is being deleted from its queue.
    Acknowledging { body: String },
}

/// What the proxy function does next.
#[derive(Clone, Debug, PartialEq, Eq)]
pub enum ProxyStep {
    /// Perform `action` and report its outcome with `state`.
    Perform { state: ProxyState, action: ProxyAction },
    /// Return the JSON document with the compact text `Some(text)`, or JSON
    /// `null` for `None`.
    Return(Option<String>),
    /// Fail the invocation.
    Fail(ProxyError),
}

pub enum OutcomeView {
    Failed,
    Done,
    Messages(Seq<QueueMessageView>),
}

pub enum ProxyActionView {
    Send { queue_url: Seq<char>, body: Seq<char> },
    Receive { queue_url: Seq<char>, max_messages: i32, wait_seconds: i32 },
    Delete { queue_url: Seq<char>, receipt_handle: Option<Seq<char>> },
}

pub enum ProxyStateView {
    Sending { arn: Seq<char>, response_queue_env: Option<Seq<char>> },
    PurgeReceiving { queue_url: Seq<char>, explicit: bool },
    PurgeDeleting { queue_url: Seq<char>, explicit: bool, rest: Seq<QueueMessageView> },
    Waiting { queue_url: Seq<char> },
    Acknowledging { body: Seq<char> },
}

pub enum ProxyStepView {
    Perform { state: ProxyStateView, action: ProxyActionView },
    Return(Option<Seq<char>>),
    Fail(ProxyError),
}

impl View for Outcome {
    type V = OutcomeView;

    open spec fn view(&self) -> OutcomeView {
        match self {
            Outcome::Failed => OutcomeView::Failed,
            Outcome::Done => OutcomeView::Done,
            Outcome::Messages(v) => OutcomeView::Messages(message_views(v@)),
        }
    }
}

impl View for ProxyAction {
    type V = ProxyActionView;

    open spec fn view(&self) -> ProxyActionView {
        match self {
            ProxyAction::Send { queue_url, body } => ProxyActionView::Send {
                queue_url: queue_url@,
                body: body@,
            },
            ProxyAction::Receive { queue_url, max_messages, wait_seconds } => {
                ProxyActionView::Receive {
                    queue_url: queue_url@,
                    max_messages: *max_messages,
                    wait_seconds: *wait_seconds,
                }
            },
            ProxyAction::Delete { queue_url, receipt_handle } => ProxyActionView::Delete {
                queue_url: queue_url@,
                receipt_handle: opt_view(*receipt_handle),
            },
        }
    }
}

impl View for ProxyState {
    type V = ProxyStateView;

    open spec fn view(&self) -> ProxyStateView {
        match self {
            ProxyState::Sending { arn, response_queue_env } => ProxyStateView::Sending {
                arn: arn@,
                response_queue_env: opt_view(*response_queue_env),
            },
            ProxyState::PurgeReceiving { queue_url, explicit } => ProxyStateView::PurgeReceiving {
                queue_url: queue_url@,
                explicit: *explicit,
            },
            ProxyState::PurgeDeleting { queue_url, explicit, rest } => {
                ProxyStateView::PurgeDeleting {
                    queue_url: queue_url@,
                    explicit: *explicit,
                    rest: message_views(rest@),
                }
            },
            ProxyState::Waiting { queue_url } => ProxyStateView::Waiting { queue_url: queue_url@ },
            ProxyState::Acknowledging { body } => ProxyStateView::Acknowledging { body: body@ },
        }
    }
}

impl View for ProxyStep {
    type V = ProxyStepView;

    open spec fn view(&self) -> ProxyStepView {
        match self {
            ProxyStep::Perform { state, action } => ProxyStepView::Perform {
                state: state@,
                action: action@,
            },
            ProxyStep::Return(text) => ProxyStepView::Return(opt_view(*text)),
            ProxyStep::Fail(e) => ProxyStepView::Fail(*e),
        }
    }
}

/// The URL of the queue `name` in the account and region of the function
/// with `arn`: `https://sqs.{region}/{account}/{name}`, where region and
/// account are the fourth and fifth of the seven parts that the ARN has
/// between its colons. There is none for an ARN of another shape.
pub open spec fn queue_url_of(arn: Seq<char>, name: Seq<char>) -> Option<Seq<char>> {
    let parts = fields(arn, ':');
    if parts.len() == 7 {
        Some("https://sqs."@ + parts[3] + "/"@ + parts[4] + "/"@ + name)
    } else {
        None
    }
}

/// The queue to use: the one that the environment names, else the default
/// one for the function.
pub open spec fn chosen_queue(env: Option<Seq<char>>, arn: Seq<char>, name: Seq<char>) -> Option<
    Seq<char>,
> {
    match env {
        Some(url) => Some(url),
        None => queue_url_of(arn, name),
    }
}

/// Derives the URL of a default queue from the ARN of the function.
pub fn default_queue_url(arn: &str, name: &str) -> (r: Option<String>)
    ensures
        opt_view(r) == queue_url_of(arn@, name@),
{
    let parts = split_fields(arn, ':');
    if parts.len() != 7 {
        return None;
    }
    assert(views(parts@)[3] == parts[3]@ && views(parts@)[4] == parts[4]@);
    let url = concat2("https://sqs.", parts[3].as_str());
    let url = url.concat("/");
    let url = url.concat(parts[4].as_str());
    let url = url.concat("/");
    let url = url.concat(name);
    Some(url)
}

/// The first step of an invocation: the request goes to the request queue,
/// unless there is no such queue to be had.
pub open spec fn first_step(
    arn: Seq<char>,
    request_queue_env: Option<Seq<char>>,
    response_queue_env: Option<Seq<char>>,
    message_body: Seq<char>,
) -> ProxyStepView {
    match chosen_queue(request_queue_env, arn, "proxy_lambda_req"@) {
        None => ProxyStepView::Fail(ProxyError::Context),
        Some(queue_url) => ProxyStepView::Perform {
            state: ProxyStateView::Sending { arn, response_queue_env },
            action: ProxyActionView::Send { queue_url, body: message_body },
        },
    }
}

/// The step that reads a batch of stale responses.
pub open spec fn purge_receive(queue_url: Seq<char>, explicit: bool) -> ProxyStepView {
    ProxyStepView::Perform {
        state: ProxyStateView::PurgeReceiving { queue_url, explicit },
        action: ProxyActionView::Receive {
            queue_url,
            max_messages: PURGE_BATCH,
            wait_seconds: 0,
        },
    }
}

/// The step that goes on emptying the queue with `stale` still to delete:
/// the first of them is deleted, and after the last the queue is read
/// again.
pub open spec fn purge_next(
    queue_url: Seq<char>,
    explicit: bool,
    stale: Seq<QueueMessageView>,
) -> ProxyStepView {
    if stale.len() == 0 {
        purge_receive(queue_url, explicit)
    } else {
        ProxyStepView::Perform {
            state: ProxyStateView::PurgeDeleting { queue_url, explicit, rest: stale.remove(0) },
            action: ProxyActionView::Delete { queue_url, receipt_handle: stale[0].receipt_handle },
        }
    }
}

/// The step after emptying the queue has failed: with a queue that the
/// environment named the invocation fails; with the default queue the
/// caller is taken not to want a response, and gets `null`.
pub open spec fn purge_failed(explicit: bool, error: ProxyError) -> ProxyStepView {
    if explicit {
        ProxyStepView::Fail(error)
    } else {
        ProxyStepView::Return(None)
    }
}

/// The step that waits for the response.
pub open spec fn wait_for_response(queue_url: Seq<char>) -> ProxyStepView {
    ProxyStepView::Perform {
        state: ProxyStateView::Waiting { queue_url },
        action: ProxyActionView::Receive {
            queue_url,
            max_messages: 1,
            wait_seconds: RESPONSE_WAIT_SECONDS,
        },
    }
}

/// The step after messages have arrived on the response queue: the receipt
/// is that of the first, the body that of the last; the body is decoded and
/// the message deleted. The decoded body is read as JSON after that.
pub open spec fn response_arrived(
    queue_url: Seq<char>,
    msgs: Seq<QueueMessageView>,
) -> ProxyStepView
    recommends
        msgs.len() > 0,
{
    match msgs[0].receipt_handle {
        None => ProxyStepView::Fail(ProxyError::MissingReceipt),
        Some(receipt_handle) => match msgs.last().body {
            None => ProxyStepView::Fail(ProxyError::MissingBody),
            Some(body) => match decoded(body) {
                Err(e) => ProxyStepView::Fail(ProxyError::Decode(e)),
                Ok(text) => ProxyStepView::Perform {
                    state: ProxyStateView::Acknowledging { body: text },
                    action: ProxyActionView::Delete {
                        queue_url,
                        receipt_handle: Some(receipt_handle),
                    },
                },
            },
        },
    }
}

/// The step that follows `outcome` in `state`.
pub open spec fn next_step(state: ProxyStateView, outcome: OutcomeView) -> ProxyStepView {
    match state {
        ProxyStateView::Sending { arn, response_queue_env } => {
            if outcome is Failed {
                ProxyStepView::Fail(ProxyError::Send)
            } else {
                match response_queue_env {
                    Some(queue_url) => purge_receive(queue_url, true),
                    None => match queue_url_of(arn, "proxy_lambda_resp"@) {
                        Some(queue_url) => purge_receive(queue_url, false),
                        None => ProxyStepView::Fail(ProxyError::Context),
                    },
                }
            }
        },
        ProxyStateView::PurgeReceiving { queue_url, explicit } => match outcome {
            OutcomeView::Failed => purge_failed(explicit, ProxyError::PurgeReceive),
            OutcomeView::Done => wait_for_response(queue_url),
            OutcomeView::Messages(msgs) => if msgs.len() == 0 {
                wait_for_response(queue_url)
            } else {
                purge_next(queue_url, explicit, msgs)
            },
        },
        ProxyStateView::PurgeDeleting { queue_url, explicit, rest } => {
            if outcome is Failed {
                purge_failed(explicit, ProxyError::PurgeDelete)
            } else {
                purge_next(queue_url, explicit, rest)
            }
        },
        ProxyStateView::Waiting { queue_url } => match outcome {
            OutcomeView::Failed => ProxyStepView::Fail(ProxyError::Receive),
            OutcomeView::Done => wait_for_response(queue_url),
            OutcomeView::Messages(msgs) => if msgs.len() == 0 {
                wait_for_response(queue_url)
            } else {
                response_arrived(queue_url, msgs)
            },
        },
        ProxyStateView::Acknowledging { body } => {
            if outcome is Failed {
                ProxyStepView::Fail(ProxyError::Delete)
            } else {
                match json_compact_text(body) {
                    Some(document) => ProxyStepView::Return(Some(document)),
                    None => ProxyStepView::Fail(ProxyError::Json),
                }
            }
        },
    }
}

/// Opens an invocation: chooses the request queue and asks for the
/// serialised event and context to be sent there.
pub fn my_handler(
    arn: String,
    request_queue_env: Option<String>,
    response_queue_env: Option<String>,
    message_body: String,
) -> (step: ProxyStep)
    ensures
        step@ == first_step(
            arn@,
            opt_view(request_queue_env),
            opt_view(response_queue_env),
            message_body@,
        ),
{
    let queue_url = match request_queue_env {
        Some(url) => url,
        None => match default_queue_url(arn.as_str(), "proxy_lambda_req") {
            Some(url) => url,
            None => {
                return ProxyStep::Fail(ProxyError::Context);
            },
        },
    };
    ProxyStep::Perform {
        state: ProxyState::Sending { arn, response_queue_env },
        action: ProxyAction::Send { queue_url, body: message_body },
    }
}

/// Asks for a batch of stale responses.
fn start_purge(queue_url: String, explicit: bool) -> (step: ProxyStep)
    ensures
        step@ == purge_receive(queue_url@, explicit),
{
    let target = queue_url.clone();
    ProxyStep::Perform {
        state: ProxyState::PurgeReceiving { queue_url, explicit },
        action: ProxyAction::Receive {
            queue_url: target,
            max_messages: PURGE_BATCH,
            wait_seconds: 0,
        },
    }
}

/// Asks for the response.
fn start_waiting(queue_url: String) -> (step: ProxyStep)
    ensures
        step@ == wait_for_response(queue_url@),
{
    let target = queue_url.clone();
    ProxyStep::Perform {
        state: ProxyState::Waiting { queue_url },
        action: ProxyAction::Receive {
            queue_url: target,
            max_messages: 1,
            wait_seconds: RESPONSE_WAIT_SECONDS,
        },
    }
}

/// Empties the response queue of the stale messages that were read: asks
/// for the first of `stale` to be deleted, or for another batch when none
/// is left.
pub fn purge_response_queue(queue_url: String, explicit: bool, stale: Vec<QueueMessage>) -> (step:
    ProxyStep)
    ensures
        step@ == purge_next(queue_url@, explicit, message_views(stale@)),
{
    let mut rest = stale;
    if rest.len() == 0 {
        return start_purge(queue_url, explicit);
    }
    let first = rest.remove(0);
    proof {
        assert(message_views(rest@) =~= message_views(stale@).remove(0));
        assert(message_views(stale@)[0] == first@);
    }
    let target = queue_url.clone();
    ProxyStep::Perform {
        state: ProxyState::PurgeDeleting { queue_url, explicit, rest },
        action: ProxyAction::Delete { queue_url: target, receipt_handle: first.receipt_handle },
    }
}

/// Gives up emptying the response queue.
fn fail_purge(explicit: bool, error: ProxyError) -> (step: ProxyStep)
    ensures
        step@ == purge_failed(explicit, error),
{
    if explicit {
        ProxyStep::Fail(error)
    } else {
        ProxyStep::Return(None)
    }
}

/// Takes the response out of the messages that arrived.
fn take_response(queue_url: String, msgs: Vec<QueueMessage>) -> (step: ProxyStep)
    requires
        msgs@.len() > 0,
    ensures
        step@ == response_arrived(queue_url@, message_views(msgs@)),
{
    let ghost all = message_views(msgs@);
    let mut msgs = msgs;
    let last = match msgs.pop() {
        Some(m) => m,
        None => {
            return ProxyStep::Fail(ProxyError::MissingBody);
        },
    };
    assert(all.last() == last@);
    let (first_receipt, body) = if msgs.len() == 0 {
        (last.receipt_handle, last.body)
    } else {
        let first = msgs.remove(0);
        assert(all[0] == first@);
        (first.receipt_handle, last.body)
    };
    let receipt_handle = match first_receipt {
        Some(v) => v,
        None => {
            return ProxyStep::Fail(ProxyError::MissingReceipt);
        },
    };
    let body = match body {
        Some(v) => v,
        None => {
            return ProxyStep::Fail(ProxyError::MissingBody);
        },
    };
    match decode_maybe_binary(body) {
        Err(e) => ProxyStep::Fail(ProxyError::Decode(e)),
        Ok(text) => ProxyStep::Perform {
            state: ProxyState::Acknowledging { body: text },
            action: ProxyAction::Delete { queue_url, receipt_handle: Some(receipt_handle) },
        },
    }
}

/// Gives the step that follows the outcome of the operation asked for
/// with `state`.
pub fn proxy_step(state: ProxyState, outcome: Outcome) -> (step: ProxyStep)
    ensures
        step@ == next_step(state@, outcome@),
{
    match state {
        ProxyState::Sending { arn, response_queue_env } => {
            if let Outcome::Failed = outcome {
                return ProxyStep::Fail(ProxyError::Send);
            }
            match response_queue_env {
                Some(queue_url) => start_purge(queue_url, true),
                None => match default_queue_url(arn.as_str(), "proxy_lambda_resp") {
                    Some(queue_url) => start_purge(queue_url, false),
                    None => ProxyStep::Fail(ProxyError::Context),
                },
            }
        },
        ProxyState::PurgeReceiving { queue_url, explicit } => match outcome {
            Outcome::Failed => fail_purge(explicit, ProxyError::PurgeReceive),
            Outcome::Done => start_waiting(queue_url),
            Outcome::Messages(msgs) => {
                if msgs.len() == 0 {
                    start_waiting(queue_url)
                } else {
                    purge_response_queue(queue_url, explicit, msgs)
                }
            },
        },
        ProxyState::PurgeDeleting { queue_url, explicit, rest } => {
            if let Outcome::Failed = outcome {
                return fail_purge(explicit, ProxyError::PurgeDelete);
            }
            purge_response_queue(queue_url, explicit, rest)
        },
        ProxyState::Waiting { queue_url } => match outcome {
            Outcome::Failed => ProxyStep::Fail(ProxyError::Receive),
            Outcome::Done => start_waiting(queue_url),
            Outcome::Messages(msgs) => {
                if msgs.len() == 0 {
                    start_waiting(queue_url)
                } else {
                    take_response(queue_url, msgs)
                }
            },
        },
        ProxyState::Acknowledging { body } => {
            if let Outcome::Failed = outcome {
                return ProxyStep::Fail(ProxyError::Delete);
            }
            match json_compact(body.as_str()) {
                Some(document) => ProxyStep::Return(Some(document)),
                None => ProxyStep::Fail(ProxyError::Json),
            }
        },
    }
}

} // verus!
