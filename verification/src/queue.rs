//! The emulator's side of the two queues: what to ask of the request queue
//! next, and what to do with a response of the handler.

use crate::codec::{byte_len, compress_output, encoded, EncodeError, MAX_MESSAGE_BYTES};
use crate::config::{RemoteConfig, RemoteConfigView};
use crate::json::{parse_request, request_of};
use crate::types::{
    message_views, PendingInvocation, PendingInvocationView, QueueMessage, QueueMessageView,
};
use vstd::prelude::*;

verus! {

/// Messages to ask for at once: one invocation is in flight at a time.
pub const POLL_BATCH: i32 = 1;

/// Seconds to wait for a message on the first request of a process.
pub const FIRST_WAIT_SECONDS: i32 = 0;

/// Seconds to wait for a message on every later request.
pub const LONG_WAIT_SECONDS: i32 = 20;

/// Milliseconds to sleep after a failed request.
pub const RETRY_SLEEP_MILLIS: u64 = 5000;

/// How a request for messages ended.
#[derive(Clone, Debug, PartialEq, Eq)]
pub enum PollEvent {
    /// The transport failed.
    Failed,
    /// The queue answered without a list of messages.
    NoList,
    /// The queue answered with a list of messages.
    Messages(Vec<QueueMessage>),
}

/// What to do after a request for messages.
#[derive(Clone, Debug, PartialEq, Eq)]
pub enum PollStep {
    /// Ask again: first sleep `sleep_millis`, then wait up to
    /// `wait_seconds` for one message. `announce` asks for the notice that
    /// the emulator is connected and waiting.
    Retry { sleep_millis: u64, wait_seconds: i32, announce: bool },
    /// A request has arrived.
    Invocation(PendingInvocation),
    /// A message has arrived without a body or without a receipt, or with
    /// a body that holds no request.
    Invalid,
}

pub enum PollEventView {
    Failed,
    NoList,
    Messages(Seq<QueueMessageView>),
}

pub enum PollStepView {
    Retry { sleep_millis: u64, wait_seconds: i32, announce: bool },
    Invocation(PendingInvocationView),
    Invalid,
}

impl View for PollEvent {
    type V = PollEventView;

    open spec fn view(&self) -> PollEventView {
        match self {
            PollEvent::Failed => PollEventView::Failed,
            PollEvent::NoList => PollEventView::NoList,
            PollEvent::Messages(v) => PollEventView::Messages(message_views(v@)),
        }
    }
}

impl View for PollStep {
    type V = PollStepView;

    open spec fn view(&self) -> PollStepView {
        match self {
            PollStep::Retry { sleep_millis, wait_seconds, announce } => PollStepView::Retry {
                sleep_millis: *sleep_millis,
                wait_seconds: *wait_seconds,
                announce: *announce,
            },
            PollStep::Invocation(pending) => PollStepView::Invocation(pending@),
            PollStep::Invalid => PollStepView::Invalid,
        }
    }
}

/// The step that follows a request made with `wait_seconds`.
///
/// A failure is retried after a pause. An answer without a list switches
/// from the first, immediate request to long polling, with a notice. An
/// empty list is asked again as before. Of a list with messages the last
/// one is taken; it must have a receipt and a body that holds a request.
/// The event of the request is what the handler gets, as compact JSON.
pub open spec fn poll_step(wait_seconds: i32, event: PollEventView) -> PollStepView {
    match event {
        PollEventView::Failed => PollStepView::Retry {
            sleep_millis: RETRY_SLEEP_MILLIS,
            wait_seconds,
            announce: false,
        },
        PollEventView::NoList => if wait_seconds == FIRST_WAIT_SECONDS {
            PollStepView::Retry { sleep_millis: 0, wait_seconds: LONG_WAIT_SECONDS, announce: true }
        } else {
            PollStepView::Retry { sleep_millis: 0, wait_seconds, announce: false }
        },
        PollEventView::Messages(msgs) => if msgs.len() == 0 {
            PollStepView::Retry { sleep_millis: 0, wait_seconds, announce: false }
        } else {
            match (msgs.last().body, msgs.last().receipt_handle) {
                (Some(body), Some(receipt_handle)) => match request_of(body) {
                    Some(request) => PollStepView::Invocation(
                        PendingInvocationView {
                            payload: request.event,
                            receipt_handle,
                            ctx: request.ctx,
                        },
                    ),
                    None => PollStepView::Invalid,
                },
                _ => PollStepView::Invalid,
            }
        },
    }
}

/// Decides what follows a request for one message of the request queue
/// that was made with `wait_seconds`.
pub fn get_input(wait_seconds: i32, event: PollEvent) -> (step: PollStep)
    ensures
        step@ == poll_step(wait_seconds, event@),
{
    match event {
        PollEvent::Failed => PollStep::Retry {
            sleep_millis: RETRY_SLEEP_MILLIS,
            wait_seconds,
            announce: false,
        },
        PollEvent::NoList => {
            if wait_seconds == FIRST_WAIT_SECONDS {
                PollStep::Retry { sleep_millis: 0, wait_seconds: LONG_WAIT_SECONDS, announce: true }
            } else {
                PollStep::Retry { sleep_millis: 0, wait_seconds, announce: false }
            }
        },
        PollEvent::Messages(mut msgs) => {
            let ghost all = message_views(msgs@);
            match msgs.pop() {
                None => PollStep::Retry { sleep_millis: 0, wait_seconds, announce: false },
                Some(msg) => {
                    assert(all.last() == msg@);
                    match (msg.body, msg.receipt_handle) {
                        (Some(body), Some(receipt_handle)) => match parse_request(body.as_str()) {
                            Some(request) => PollStep::Invocation(
                                PendingInvocation::new(request, receipt_handle),
                            ),
                            None => PollStep::Invalid,
                        },
                        _ => PollStep::Invalid,
                    }
                },
            }
        },
    }
}

/// One operation on a queue.
#[derive(Clone, Debug, PartialEq, Eq)]
pub enum QueueAction {
    /// Write `body` to the queue.
    Send { queue_url: String, body: String },
    /// Delete the message with this receipt from the queue.
    Delete { queue_url: String, receipt_handle: String },
}

pub enum QueueActionView {
    Send { queue_url: Seq<char>, body: Seq<char> },
    Delete { queue_url: Seq<char>, receipt_handle: Seq<char> },
}

impl View for QueueAction {
    type V = QueueActionView;

    open spec fn view(&self) -> QueueActionView {
        match self {
            QueueAction::Send { queue_url, body } => QueueActionView::Send {
                queue_url: queue_url@,
                body: body@,
            },
            QueueAction::Delete { queue_url, receipt_handle } => QueueActionView::Delete {
                queue_url: queue_url@,
                receipt_handle: receipt_handle@,
            },
        }
    }
}

/// The views of a sequence of operations.
pub open spec fn action_views(v: Seq<QueueAction>) -> Seq<QueueActionView> {
    v.map_values(|a: QueueAction| a@)
}

/// The operations that deliver the encoded response `body`, in order.
///
/// Without a response queue nothing is done. Otherwise the body is written
/// to the response queue unless it is too long for a message, and then the
/// request is deleted from the request queue by its receipt: one delete, and
/// never before the write.
pub open spec fn output_plan(
    config: RemoteConfigView,
    body: Seq<char>,
    receipt_handle: Seq<char>,
) -> Seq<QueueActionView> {
    match config.response_queue_url {
        None => Seq::empty(),
        Some(response_queue_url) => {
            let delete = QueueActionView::Delete {
                queue_url: config.request_queue_url,
                receipt_handle,
            };
            if byte_len(body) < MAX_MESSAGE_BYTES {
                seq![QueueActionView::Send { queue_url: response_queue_url, body }, delete]
            } else {
                seq![delete]
            }
        },
    }
}

/// Plans the delivery of a response that has been encoded already.
pub fn plan_output(config: &RemoteConfig, body: String, receipt_handle: String) -> (plan: Vec<
    QueueAction,
>)
    ensures
        action_views(plan@) == output_plan(config@, body@, receipt_handle@),
{
    let mut plan: Vec<QueueAction> = Vec::new();
    match &config.response_queue_url {
        None => {
            assert(action_views(plan@) =~= Seq::<QueueActionView>::empty());
        },
        Some(response_queue_url) => {
            if body.as_str().as_bytes().len() < MAX_MESSAGE_BYTES {
                plan.push(QueueAction::Send { queue_url: response_queue_url.clone(), body });
            }
            plan.push(
                QueueAction::Delete {
                    queue_url: config.request_queue_url.clone(),
                    receipt_handle,
                },
            );
            assert(action_views(plan@) =~= output_plan(config@, body@, receipt_handle@));
        },
    }
    plan
}

/// The operations that deliver the response of the handler: without a
/// response queue none, else those for its encoded form; or the failure to
/// encode it.
pub open spec fn output_of(
    config: RemoteConfigView,
    response: Seq<char>,
    receipt_handle: Seq<char>,
) -> Result<Seq<QueueActionView>, EncodeError> {
    if config.response_queue_url is None {
        Ok(Seq::empty())
    } else {
        match encoded(response) {
            Ok(body) => Ok(output_plan(config, body, receipt_handle)),
            Err(e) => Err(e),
        }
    }
}

/// `r` stands for the same outcome as `expected`.
pub open spec fn plan_result_is(
    r: Result<Vec<QueueAction>, EncodeError>,
    expected: Result<Seq<QueueActionView>, EncodeError>,
) -> bool {
    match r {
        Ok(plan) => expected == Ok::<Seq<QueueActionView>, EncodeError>(action_views(plan@)),
        Err(e) => expected == Err::<Seq<QueueActionView>, EncodeError>(e),
    }
}

/// Plans the delivery of the handler's response: encodes it where a
/// response queue is configured, and plans the operations on the queues.
pub fn send_output(config: &RemoteConfig, response: String, receipt_handle: String) -> (r: Result<
    Vec<QueueAction>,
    EncodeError,
>)
    ensures
        plan_result_is(r, output_of(config@, response@, receipt_handle@)),
{
    if config.response_queue_url.is_none() {
        let plan: Vec<QueueAction> = Vec::new();
        assert(action_views(plan@) =~= Seq::<QueueActionView>::empty());
        return Ok(plan);
    }
    match compress_output(response) {
        Ok(body) => Ok(plan_output(config, body, receipt_handle)),
        Err(e) => Err(e),
    }
}

/// The operations on the request queue named by `queue_url` that delete the
/// message with `receipt_handle`.
pub open spec fn deletes_of(
    plan: Seq<QueueActionView>,
    queue_url: Seq<char>,
    receipt_handle: Seq<char>,
) -> Seq<QueueActionView> {
    plan.filter(
        |a: QueueActionView| a == (QueueActionView::Delete { queue_url, receipt_handle }),
    )
}

/// The operations of `plan` that write to a queue.
pub open spec fn sends_of(plan: Seq<QueueActionView>) -> Seq<QueueActionView> {
    plan.filter(|a: QueueActionView| a is Send)
}

/// With a response queue configured, the plan for an encoded body holds
/// exactly one delete: that of the request with the receipt given, on the
/// request queue.
pub proof fn lemma_plan_deletes_once(
    config: RemoteConfigView,
    body: Seq<char>,
    receipt_handle: Seq<char>,
)
    requires
        config.response_queue_url is Some,
    ensures
        deletes_of(
            output_plan(config, body, receipt_handle),
            config.request_queue_url,
            receipt_handle,
        ).len() == 1,
        output_plan(config, body, receipt_handle).filter(|a: QueueActionView| a is Delete).len()
            == 1,
{
    let plan = output_plan(config, body, receipt_handle);
    let delete = QueueActionView::Delete { queue_url: config.request_queue_url, receipt_handle };
    let f = |a: QueueActionView| a == (QueueActionView::Delete {
        queue_url: config.request_queue_url,
        receipt_handle,
    });
    let g = |a: QueueActionView| a is Delete;
    reveal_with_fuel(Seq::filter, 3);
    if byte_len(body) < MAX_MESSAGE_BYTES {
        let send = QueueActionView::Send { queue_url: config.response_queue_url->0, body };
        assert(plan =~= seq![send, delete]);
        assert(plan.drop_last() =~= seq![send]);
        assert(seq![send].drop_last() =~= Seq::<QueueActionView>::empty());
        assert(plan.filter(f) =~= seq![delete]);
        assert(plan.filter(g) =~= seq![delete]);
    } else {
        assert(plan =~= seq![delete]);
        assert(plan.drop_last() =~= Seq::<QueueActionView>::empty());
        assert(plan.filter(f) =~= seq![delete]);
        assert(plan.filter(g) =~= seq![delete]);
    }
}

/// With a response queue configured, the plan for an encoded body that
/// fits in a message is one write to the response queue and then the delete
/// of the request.
pub proof fn lemma_plan_sends_before_delete(
    config: RemoteConfigView,
    body: Seq<char>,
    receipt_handle: Seq<char>,
)
    requires
        config.response_queue_url is Some,
        byte_len(body) < MAX_MESSAGE_BYTES,
    ensures
        sends_of(output_plan(config, body, receipt_handle)).len() == 1,
        output_plan(config, body, receipt_handle).len() == 2,
        output_plan(config, body, receipt_handle)[0] == (QueueActionView::Send {
            queue_url: config.response_queue_url->0,
            body,
        }),
        output_plan(config, body, receipt_handle)[1] == (QueueActionView::Delete {
            queue_url: config.request_queue_url,
            receipt_handle,
        }),
{
    let plan = output_plan(config, body, receipt_handle);
    let delete = QueueActionView::Delete { queue_url: config.request_queue_url, receipt_handle };
    let send = QueueActionView::Send { queue_url: config.response_queue_url->0, body };
    let g = |a: QueueActionView| a is Send;
    reveal_with_fuel(Seq::filter, 3);
    assert(plan =~= seq![send, delete]);
    assert(plan.drop_last() =~= seq![send]);
    assert(seq![send].drop_last() =~= Seq::<QueueActionView>::empty());
    assert(plan.filter(g) =~= seq![send]);
}

/// For every response of the handler that is delivered through a response
/// queue, exactly one delete is issued, on the request queue, with the
/// receipt handle of the request.
pub proof fn lemma_one_delete_per_response(
    config: RemoteConfigView,
    response: Seq<char>,
    receipt_handle: Seq<char>,
)
    requires
        config.response_queue_url is Some,
        encoded(response) is Ok,
    ensures
        output_of(config, response, receipt_handle) is Ok,
        deletes_of(
            output_of(config, response, receipt_handle)->Ok_0,
            config.request_queue_url,
            receipt_handle,
        ).len() == 1,
        output_of(config, response, receipt_handle)->Ok_0.filter(
            |a: QueueActionView| a is Delete,
        ).len() == 1,
{
    lemma_plan_deletes_once(config, encoded(response)->Ok_0, receipt_handle);
}

/// For every response of the handler whose encoded form is shorter than
/// 262,144 bytes, exactly one message is written to the response queue,
/// and the request is deleted after that.
pub proof fn lemma_one_send_before_delete(
    config: RemoteConfigView,
    response: Seq<char>,
    receipt_handle: Seq<char>,
)
    requires
        config.response_queue_url is Some,
        encoded(response) is Ok,
        byte_len(encoded(response)->Ok_0) < MAX_MESSAGE_BYTES,
    ensures
        output_of(config, response, receipt_handle) is Ok,
        sends_of(output_of(config, response, receipt_handle)->Ok_0).len() == 1,
        output_of(config, response, receipt_handle)->Ok_0 =~= seq![
            QueueActionView::Send {
                queue_url: config.response_queue_url->0,
                body: encoded(response)->Ok_0,
            },
            QueueActionView::Delete { queue_url: config.request_queue_url, receipt_handle },
        ],
{
    lemma_plan_sends_before_delete(config, encoded(response)->Ok_0, receipt_handle);
}

} // verus!
