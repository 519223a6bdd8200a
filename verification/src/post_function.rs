//! The service that calls downstream and publishes what came back.
//!
//! The calls themselves are made by the caller. Between them stand the
//! decisions: what to send, what to publish, what to answer.

use vstd::prelude::*;
use crate::ambient::{fresh_message_id, now_millis};
use crate::carrier::{distinct_keys, lookup, mapping_of, text_of};
use crate::codec::TRACEPARENT;
use crate::envelope::{Envelope, EnvelopeView};
use crate::inbound::{inbound_parent, open, HANDLER_SPAN};
use crate::outbound::{outbound_mapping, prepare, OutboundCall, DEMO_PATH};
use crate::payload::{parsed, AddedContext};
use crate::publish::{message_text, post_message, published};
use crate::reply::{ok_reply, BridgeError, HttpReply};
use crate::span::{started, ClosedSpan, Span, SpanKind};

verus! {

/// An invocation that has opened its span and prepared its downstream call.
pub struct Begun {
    pub span: Span,
    pub call: OutboundCall,
}

/// What follows the downstream call.
#[derive(Debug, Clone, PartialEq, Eq)]
pub enum Step {
    /// Publish `message`, the envelope with the identifier `id`.
    Publish { id: String, message: String },
    /// Publish nothing and answer with `reply`; `failure` is for the log.
    Respond { reply: HttpReply, failure: BridgeError },
}

/// What the downstream service answered: the status and the body.
#[derive(Debug, Clone, PartialEq, Eq)]
pub struct DownstreamResponse {
    pub status: u16,
    pub body: String,
}

/// Whether a status is one of success.
pub open spec fn expected_status(status: u16) -> bool {
    200 <= status <= 299
}

/// How an invocation ended: its answer, or the failure that it reports, and
/// its span, closed.
pub struct Finished {
    pub result: Result<HttpReply, BridgeError>,
    pub span: ClosedSpan,
}

/// Whether `step` publishes nothing and answers 200 with an empty body,
/// naming `failure` for the log.
pub open spec fn abandons(step: Step, failure: BridgeError) -> bool {
    &&& step matches Step::Respond { reply, failure: named }
    &&& reply@ == ok_reply(Seq::empty())
    &&& named == failure
}

/// Whether `step` is what follows `response` under the captured
/// `trace_parent`. A failed call, an unexpected status, or a body that is no
/// payload abandons the business step and still answers 200. A payload is
/// published in an envelope that carries `trace_parent`.
pub open spec fn follows(
    trace_parent: Option<String>,
    response: Result<DownstreamResponse, String>,
    step: Step,
) -> bool {
    match response {
        Err(reason) => abandons(step, BridgeError::DownstreamCallFailure { reason }),
        Ok(answer) => if !expected_status(answer.status) {
            abandons(step, BridgeError::DownstreamStatusUnexpected { status: answer.status })
        } else {
            match parsed(answer.body@) {
                None => abandons(step, BridgeError::DownstreamBodyUnreadable),
                Some(payload) => {
                    &&& step matches Step::Publish { id, message }
                    &&& message@ == message_text(
                        EnvelopeView {
                            timestamp: payload.timestamp,
                            description: payload.description,
                            id: id@,
                            correlation_id: Seq::empty(),
                        },
                        trace_parent,
                    )
                },
            }
        },
    }
}

/// Opens the invocation: a server span under the context that the request
/// headers carry, and the downstream call prepared under that span.
pub fn begin(headers: &Vec<(String, String)>, service_url: &str) -> (begun: Begun)
    ensures
        begun.span@ == started(
            HANDLER_SPAN@,
            SpanKind::Server,
            inbound_parent(headers@),
            begun.span@.context.trace_id,
            begun.span@.context.span_id,
            begun.span@.start_time,
        ),
        begun.span@.context.valid(),
        begun.call.trace_parent is Some,
        begun.call.url@ == service_url@ + DEMO_PATH@,
        distinct_keys(begun.call.headers@),
        mapping_of(begun.call.headers@) == outbound_mapping(begun.span@.context),
        text_of(begun.call.trace_parent) == lookup(
            outbound_mapping(begun.span@.context),
            TRACEPARENT@,
        ),
{
    let span = open(headers);
    let current = span.context();
    let call = prepare(&current, service_url);
    Begun { span, call }
}

/// What follows the downstream call, for a message with the identifier
/// `id`.
pub fn after_downstream_with(
    trace_parent: Option<String>,
    response: Result<DownstreamResponse, String>,
    id: String,
) -> (step: Step)
    ensures
        follows(trace_parent, response, step),
        step matches Step::Publish { id: used, .. } ==> used == id,
{
    let answer = match response {
        Ok(answer) => answer,
        Err(reason) => {
            return Step::Respond {
                reply: HttpReply::ok(String::new()),
                failure: BridgeError::DownstreamCallFailure { reason },
            };
        },
    };
    if answer.status < 200 || answer.status > 299 {
        return Step::Respond {
            reply: HttpReply::ok(String::new()),
            failure: BridgeError::DownstreamStatusUnexpected { status: answer.status },
        };
    }
    match AddedContext::from_json(answer.body.as_str()) {
        Some(payload) => {
            let envelope = Envelope::new(payload.timestamp, payload.description, id.clone(), None);
            let message = post_message(envelope, trace_parent);
            Step::Publish { id, message }
        },
        None => Step::Respond {
            reply: HttpReply::ok(String::new()),
            failure: BridgeError::DownstreamBodyUnreadable,
        },
    }
}

/// What follows the downstream call, for a message with a fresh identifier.
pub fn after_downstream(
    trace_parent: Option<String>,
    response: Result<DownstreamResponse, String>,
) -> (step: Step)
    ensures
        follows(trace_parent, response, step),
{
    let id = fresh_message_id();
    after_downstream_with(trace_parent, response, id)
}

/// The answer of an invocation whose publish call ended in `sent`, or that
/// published nothing: 200 with an empty body, unless the queue refused the
/// message.
pub open spec fn answered(sent: Option<Result<(), String>>, result: Result<HttpReply, BridgeError>)
    -> bool {
    match sent {
        Some(Err(reason)) => result == Err::<HttpReply, BridgeError>(
            BridgeError::QueuePublishFailure { reason },
        ),
        _ => result matches Ok(reply) && reply@ == ok_reply(Seq::empty()),
    }
}

/// Ends the invocation at `now`: closes its span, whatever the publish call
/// did, and gives the answer.
pub fn finish_at(span: Span, sent: Option<Result<(), String>>, now: i64) -> (end: Finished)
    ensures
        answered(sent, end.result),
        end.span@.span == span@,
        end.span.end_time == now,
{
    let closed = span.close_at(now);
    let result = match sent {
        Some(sent) => match published(sent) {
            Ok(_) => Ok(HttpReply::ok(String::new())),
            Err(failure) => Err(failure),
        },
        None => Ok(HttpReply::ok(String::new())),
    };
    Finished { result, span: closed }
}

/// Ends the invocation now.
pub fn finish(span: Span, sent: Option<Result<(), String>>) -> (end: Finished)
    ensures
        answered(sent, end.result),
        end.span@.span == span@,
{
    let now = now_millis();
    finish_at(span, sent, now)
}

} // verus!
