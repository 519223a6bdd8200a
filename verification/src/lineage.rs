//! What holds of a trace across the hops: the laws that tie the inbound
//! request, the outbound call, the queue message and the consumer together.

use vstd::prelude::*;
use crate::adapter::correlation_mapping;
use crate::carrier::{lookup, Text};
use crate::codec::{extracted, lemma_keys_differ, TRACEPARENT};
use crate::consumer::{carried, worked, Processed};
use crate::context::TraceContext;
use crate::envelope::{envelope_of, EnvelopeView};
use crate::outbound::outbound_mapping;
use crate::span::{span_id_from, started, SpanKind};
use crate::traceparent;

verus! {

/// The canonical text is never empty, so it is never mistaken for the
/// sentinel of a missing context.
pub proof fn lemma_text_length(trace_id: u128, span_id: u64, flags: u8)
    ensures
        traceparent::text(trace_id, span_id, flags).len() == 55,
{
    crate::hex::lemma_encode_shape(trace_id as nat, 32);
    crate::hex::lemma_encode_shape(span_id as nat, 16);
    crate::hex::lemma_encode_shape((flags & 1) as nat, 2);
}

/// End-to-end lineage: a span opened under a parent stays in the parent's
/// trace. The headers of its outbound call name the parent's trace and the
/// span itself, and so does the correlation field captured from them.
pub proof fn law_end_to_end_lineage(
    name: Text,
    kind: SpanKind,
    parent: TraceContext,
    trace_id: u128,
    span_id: u64,
    now: i64,
)
    requires
        parent.valid(),
    ensures
        ({
            let current = started(name, kind, Some(parent), trace_id, span_id, now).context;
            let headers = outbound_mapping(current);
            let captured = lookup(headers, TRACEPARENT@);
            let named = TraceContext {
                trace_id: parent.trace_id,
                span_id: span_id_from(span_id),
                flags: parent.flags & 1,
            };
            &&& current.trace_id == parent.trace_id
            &&& extracted(headers) == Some(named)
            &&& captured == Some(
                traceparent::text(parent.trace_id, span_id_from(span_id), parent.flags),
            )
            &&& extracted(correlation_mapping(captured->0)) == Some(named)
        }),
{
    let current = started(name, kind, Some(parent), trace_id, span_id, now).context;
    lemma_keys_differ();
    lemma_text_length(parent.trace_id, span_id_from(span_id), parent.flags);
    crate::codec::law_round_trip(current, Map::<Text, Text>::empty());
    traceparent::lemma_text_round_trip(parent.trace_id, span_id_from(span_id), parent.flags);
}

/// Every started span names itself: its context is valid, whatever was
/// drawn, so a nested call always has a context to inject.
pub proof fn law_started_span_is_valid(
    name: Text,
    kind: SpanKind,
    parent: Option<TraceContext>,
    trace_id: u128,
    span_id: u64,
    now: i64,
)
    ensures
        started(name, kind, parent, trace_id, span_id, now).context.valid(),
        extracted(outbound_mapping(started(name, kind, parent, trace_id, span_id, now).context))
            is Some,
{
    let current = started(name, kind, parent, trace_id, span_id, now).context;
    crate::codec::law_round_trip(current, Map::<Text, Text>::empty());
}

/// Publish-to-consume lineage: the work on an envelope whose correlation
/// field is the canonical text of a valid context runs in a span whose
/// parent is that context, in that context's trace.
pub proof fn law_publish_consume_lineage(envelope: EnvelopeView, sent: TraceContext, work: Processed)
    requires
        sent.valid(),
        envelope.correlation_id == traceparent::text(sent.trace_id, sent.span_id, sent.flags),
        worked(envelope, work),
    ensures
        work.span@.span.parent == Some(
            TraceContext { trace_id: sent.trace_id, span_id: sent.span_id, flags: sent.flags & 1 },
        ),
        work.span@.span.context.trace_id == sent.trace_id,
{
    lemma_text_length(sent.trace_id, sent.span_id, sent.flags);
    traceparent::lemma_text_round_trip(sent.trace_id, sent.span_id, sent.flags);
}

/// Consumer resilience: the work on an envelope with an empty correlation
/// field runs in a root span.
pub proof fn law_empty_correlation_is_root(envelope: EnvelopeView, work: Processed)
    requires
        envelope.correlation_id.len() == 0,
        worked(envelope, work),
    ensures
        carried(envelope) is None,
        work.span@.span.parent is None,
{
}

/// Consumer resilience: a body without a correlation field is no error; it
/// reads as an envelope with an empty one.
pub proof fn law_omitted_correlation_is_empty(timestamp: i64, description: Text, id: Text)
    ensures
        envelope_of(Some(timestamp), Some(description), Some(id), None) == Ok::<
            EnvelopeView,
            crate::envelope::RecordError,
        >(EnvelopeView { timestamp, description, id, correlation_id: Seq::empty() }),
{
}

} // verus!
