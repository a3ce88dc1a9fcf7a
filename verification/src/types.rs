//! The payload types shared by the emulator and the proxy function.

use crate::text::opt_view;
use vstd::prelude::*;

verus! {

/// What the emulator reads of the context of an invocation.
#[derive(Clone, Debug, PartialEq, Eq)]
pub struct InvocationContext {
    pub request_id: String,
    /// The deadline of the invocation, in milliseconds since the epoch.
    pub deadline_ms: i64,
    pub invoked_function_arn: String,
    pub xray_trace_id: Option<String>,
}

/// The body of a request-queue message: an event and its context.
#[derive(Clone, Debug, PartialEq, Eq)]
pub struct RequestPayload {
    /// The event, as compact JSON text.
    pub event: String,
    pub ctx: InvocationContext,
}

/// An invocation that was received and not answered yet.
#[derive(Clone, Debug, PartialEq, Eq)]
pub struct PendingInvocation {
    /// The event, as compact JSON text.
    pub payload: String,
    /// The receipt of the request message; needed to delete it later.
    pub receipt_handle: String,
    pub ctx: InvocationContext,
}

pub struct InvocationContextView {
    pub request_id: Seq<char>,
    pub deadline_ms: i64,
    pub invoked_function_arn: Seq<char>,
    pub xray_trace_id: Option<Seq<char>>,
}

pub struct RequestPayloadView {
    pub event: Seq<char>,
    pub ctx: InvocationContextView,
}

impl View for InvocationContext {
    type V = InvocationContextView;

    open spec fn view(&self) -> InvocationContextView {
        InvocationContextView {
            request_id: self.request_id@,
            deadline_ms: self.deadline_ms,
            invoked_function_arn: self.invoked_function_arn@,
            xray_trace_id: opt_view(self.xray_trace_id),
        }
    }
}

impl View for RequestPayload {
    type V = RequestPayloadView;

    open spec fn view(&self) -> RequestPayloadView {
        RequestPayloadView { event: self.event@, ctx: self.ctx@ }
    }
}

pub struct PendingInvocationView {
    pub payload: Seq<char>,
    pub receipt_handle: Seq<char>,
    pub ctx: InvocationContextView,
}

impl View for PendingInvocation {
    type V = PendingInvocationView;

    open spec fn view(&self) -> PendingInvocationView {
        PendingInvocationView {
            payload: self.payload@,
            receipt_handle: self.receipt_handle@,
            ctx: self.ctx@,
        }
    }
}

/// A message as a queue hands it out.
#[derive(Clone, Debug, PartialEq, Eq)]
pub struct QueueMessage {
    pub body: Option<String>,
    pub receipt_handle: Option<String>,
}

pub struct QueueMessageView {
    pub body: Option<Seq<char>>,
    pub receipt_handle: Option<Seq<char>>,
}

impl View for QueueMessage {
    type V = QueueMessageView;

    open spec fn view(&self) -> QueueMessageView {
        QueueMessageView {
            body: opt_view(self.body),
            receipt_handle: opt_view(self.receipt_handle),
        }
    }
}

/// The views of a sequence of messages.
pub open spec fn message_views(v: Seq<QueueMessage>) -> Seq<QueueMessageView> {
    v.map_values(|m: QueueMessage| m@)
}

impl PendingInvocation {
    /// Joins a parsed request with the receipt of the message that carried
    /// it.
    pub fn new(payload: RequestPayload, receipt_handle: String) -> (r: PendingInvocation)
        ensures
            r.payload == payload.event,
            r.receipt_handle == receipt_handle,
            r.ctx == payload.ctx,
            r@ == (PendingInvocationView {
                payload: payload@.event,
                receipt_handle: receipt_handle@,
                ctx: payload@.ctx,
            }),
    {
        PendingInvocation { payload: payload.event, receipt_handle, ctx: payload.ctx }
    }
}

} // verus!
