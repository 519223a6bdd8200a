//! The entry of an HTTP-triggered invocation: the request's headers give the
//! parent, and a server span opens under it. Headers that carry no context,
//! or a malformed one, give a root span; they never fail the request.

use vstd::prelude::*;
use crate::adapter::from_headers;
use crate::ambient::{fresh_span_id, fresh_trace_id, now_millis};
use crate::carrier::{with_pairs, Text};
use crate::codec::{extract, extracted};
use crate::context::TraceContext;
use crate::span::{started, Span, SpanKind};

verus! {

/// The name of the span of an invocation.
pub const HANDLER_SPAN: &'static str = "Handler";

/// The context that request headers carry.
pub open spec fn inbound_parent(headers: Seq<(String, String)>) -> Option<TraceContext> {
    extracted(with_pairs(Map::<Text, Text>::empty(), headers))
}

/// Opens the span of an invocation at `now`, with the given drawn
/// identifiers, under the context that the headers carry.
pub fn open_at(headers: &Vec<(String, String)>, trace_id: u128, span_id: u64, now: i64) -> (span:
    Span)
    ensures
        span@ == started(
            HANDLER_SPAN@,
            SpanKind::Server,
            inbound_parent(headers@),
            trace_id,
            span_id,
            now,
        ),
        span@.context.valid(),
{
    let carrier = from_headers(headers);
    let parent = extract(&carrier);
    Span::start_at(HANDLER_SPAN, SpanKind::Server, parent, trace_id, span_id, now)
}

/// Opens the span of an invocation now, under the context that the headers
/// carry.
pub fn open(headers: &Vec<(String, String)>) -> (span: Span)
    ensures
        span@ == started(
            HANDLER_SPAN@,
            SpanKind::Server,
            inbound_parent(headers@),
            span@.context.trace_id,
            span@.context.span_id,
            span@.start_time,
        ),
        span@.context.valid(),
{
    let trace_id = fresh_trace_id();
    let span_id = fresh_span_id();
    let now = now_millis();
    open_at(headers, trace_id, span_id, now)
}

} // verus!
