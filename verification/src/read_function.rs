//! The service that answers an HTTP request with a fresh payload.

use vstd::prelude::*;
use crate::ambient::now_millis;
use crate::inbound::{inbound_parent, open, HANDLER_SPAN};
use crate::payload::{json_text, AddedContext, AddedContextView};
use crate::reply::{ok_reply, HttpReply};
use crate::span::{started, ClosedSpan, Span, SpanKind};

verus! {

/// The name of the span around the making of the payload.
pub const ADD_CONTEXT_SPAN: &'static str = "AddContext";

/// The description of every payload of this service.
pub const READ_DESCRIPTION: &'static str = "From Read";

/// The payload made at `now`.
pub fn generate_context_at(now: i64) -> (added: AddedContext)
    ensures
        added@ == (AddedContextView { timestamp: now, description: READ_DESCRIPTION@ }),
{
    AddedContext { timestamp: now, description: READ_DESCRIPTION.to_owned() }
}

/// The payload made now.
pub fn generate_context() -> (added: AddedContext)
    ensures
        added@.description == READ_DESCRIPTION@,
{
    let now = now_millis();
    generate_context_at(now)
}

/// The reply that carries `added`.
pub fn respond(added: &AddedContext) -> (reply: HttpReply)
    ensures
        reply@ == ok_reply(json_text(added@)),
{
    HttpReply::ok(added.to_json())
}

/// What one invocation did: its reply, the payload in it, and its two spans,
/// both closed.
pub struct ReadOutcome {
    pub reply: HttpReply,
    pub added: AddedContext,
    pub handler_span: ClosedSpan,
    pub context_span: ClosedSpan,
}

/// Serves one request. The invocation's span is a server span under the
/// context that the headers carry, or a root span where they carry none; the
/// payload is made in a span of its own under it. The reply is always 200
/// with the payload as JSON.
pub fn handler(headers: &Vec<(String, String)>) -> (out: ReadOutcome)
    ensures
        out.reply@ == ok_reply(json_text(out.added@)),
        out.added@.description == READ_DESCRIPTION@,
        out.handler_span@.span == started(
            HANDLER_SPAN@,
            SpanKind::Server,
            inbound_parent(headers@),
            out.handler_span.context.trace_id,
            out.handler_span.context.span_id,
            out.handler_span.start_time,
        ),
        out.context_span@.span == started(
            ADD_CONTEXT_SPAN@,
            SpanKind::Internal,
            Some(out.handler_span.context),
            out.context_span.context.trace_id,
            out.context_span.context.span_id,
            out.context_span.start_time,
        ),
{
    let span = open(headers);
    let inner = Span::start(ADD_CONTEXT_SPAN, SpanKind::Internal, Some(span.context()));
    let added = generate_context();
    let context_span = inner.close();
    let reply = respond(&added);
    let handler_span = span.close();
    ReadOutcome { reply, added, handler_span, context_span }
}

} // verus!
