//! Writing a trace context into a carrier and reading it back.
//!
//! The text is produced and parsed by the W3C trace-context propagator of
//! `opentelemetry_sdk`. Both operations are total: every context and every
//! carrier, however malformed, has a defined result.

use vstd::prelude::*;
use std::collections::HashMap;
use opentelemetry::Context;
use opentelemetry::propagation::TextMapPropagator;
use opentelemetry::trace::{SpanContext, SpanId, TraceContextExt, TraceFlags, TraceId, TraceState};
use opentelemetry_sdk::propagation::TraceContextPropagator;
use crate::carrier::{lookup, with_pairs, Carrier, Text};
use crate::context::{context_of, TraceContext};
use crate::traceparent;

verus! {

/// The carrier key of the serialized context.
pub const TRACEPARENT: &'static str = "traceparent";

/// The carrier key of the vendor state that travels with the context.
pub const TRACESTATE: &'static str = "tracestate";

/// What the propagator reads from a `traceparent` value that is not in
/// canonical form: the trace identifier, the span identifier and the flags,
/// all zero where it reads no context.
pub uninterp spec fn lenient_parts(header: Seq<char>) -> (u128, u64, u8);

/// The parts that the propagator reads from a `traceparent` value.
pub open spec fn parts_of(header: Text) -> (u128, u64, u8) {
    if traceparent::is_canonical(header) {
        traceparent::canonical_parts(header)
    } else {
        lenient_parts(header)
    }
}

/// The context that a `traceparent` value names, if it names one.
pub open spec fn context_named(header: Text) -> Option<TraceContext> {
    context_of(parts_of(header).0, parts_of(header).1, parts_of(header).2)
}

/// The context that a carrier holds: that of its `traceparent` entry, absent
/// where the entry is missing or names none.
pub open spec fn extracted(mapping: Map<Text, Text>) -> Option<TraceContext> {
    match lookup(mapping, TRACEPARENT@) {
        Some(header) => context_named(header),
        None => None,
    }
}

/// The carrier after a context was written into it. A present context sets
/// `traceparent` to its canonical text and `tracestate` to the empty vendor
/// state; an absent one leaves the carrier as it was.
pub open spec fn injected(ctx: Option<TraceContext>, mapping: Map<Text, Text>) -> Map<Text, Text> {
    match ctx {
        Some(c) => if c.valid() {
            mapping.insert(TRACEPARENT@, traceparent::text(c.trace_id, c.span_id, c.flags)).insert(
                TRACESTATE@,
                Seq::<char>::empty(),
            )
        } else {
            mapping
        },
        None => mapping,
    }
}

/// Whether `pair` holds `key` and `value`.
pub open spec fn is_pair(pair: (String, String), key: Text, value: Text) -> bool {
    pair.0@ == key && pair.1@ == value
}

/// Whether `fields` are the two entries that carry `text`, in either order.
pub open spec fn carries(fields: Seq<(String, String)>, text: Text) -> bool {
    &&& fields.len() == 2
    &&& {
        ||| is_pair(fields[0], TRACEPARENT@, text) && is_pair(
            fields[1],
            TRACESTATE@,
            Seq::<char>::empty(),
        )
        ||| is_pair(fields[1], TRACEPARENT@, text) && is_pair(
            fields[0],
            TRACESTATE@,
            Seq::<char>::empty(),
        )
    }
}

/// `TraceContextPropagator::inject_context`, on a remote span context of the
/// given parts with an empty trace state, into an empty `HashMap`. For zero
/// identifiers the propagator writes nothing. Otherwise it writes two
/// entries: `traceparent` with the canonical text, and `tracestate` with the
/// empty header of the empty state. The map hands them out in either order.
#[verifier::external_body]
fn propagator_fields(trace_id: u128, span_id: u64, flags: u8) -> (fields: Vec<(String, String)>)
    ensures
        trace_id == 0 || span_id == 0 ==> fields@.len() == 0,
        trace_id != 0 && span_id != 0 ==> carries(
            fields@,
            traceparent::text(trace_id, span_id, flags),
        ),
{
    let span_context = SpanContext::new(
        TraceId::from(trace_id),
        SpanId::from(span_id),
        TraceFlags::new(flags),
        true,
        TraceState::default(),
    );
    let cx = Context::new().with_remote_span_context(span_context);
    let mut fields: HashMap<String, String> = HashMap::new();
    TraceContextPropagator::new().inject_context(&cx, &mut fields);
    fields.into_iter().collect()
}

/// `TraceContextPropagator::extract_with_context`, on an empty context and a
/// `HashMap` that holds `header` under `traceparent`; the result is the span
/// context of what came back, as numbers. On a canonical header the
/// propagator reads the two identifiers from their hex digits and keeps the
/// sampled bit of the flags. On any other header the result is a function of
/// the header alone, all zero where no context is read.
#[verifier::external_body]
fn propagator_parts(header: &str) -> (parts: (u128, u64, u8))
    ensures
        traceparent::is_canonical(header@) ==> parts == traceparent::canonical_parts(header@),
        !traceparent::is_canonical(header@) ==> parts == lenient_parts(header@),
{
    let mut fields: HashMap<String, String> = HashMap::new();
    fields.insert(TRACEPARENT.to_string(), header.to_string());
    let cx = TraceContextPropagator::new().extract_with_context(&Context::new(), &fields);
    let span = cx.span();
    let found = span.span_context();
    (
        u128::from_be_bytes(found.trace_id().to_bytes()),
        u64::from_be_bytes(found.span_id().to_bytes()),
        found.trace_flags().to_u8(),
    )
}

/// The two carrier keys differ.
pub proof fn lemma_keys_differ()
    ensures
        TRACEPARENT@ != TRACESTATE@,
        TRACEPARENT@.len() == 11,
        TRACESTATE@.len() == 10,
{
    reveal_strlit("traceparent");
    reveal_strlit("tracestate");
    assert(TRACEPARENT@ == "traceparent"@);
    assert(TRACESTATE@ == "tracestate"@);
}

/// Setting the two entries that carry `text` gives the same mapping in
/// either order.
proof fn lemma_with_carried(mapping: Map<Text, Text>, fields: Seq<(String, String)>, text: Text)
    requires
        carries(fields, text),
    ensures
        with_pairs(mapping, fields) == mapping.insert(TRACEPARENT@, text).insert(
            TRACESTATE@,
            Seq::<char>::empty(),
        ),
{
    lemma_keys_differ();
    reveal_with_fuel(with_pairs, 3);
    assert(fields.drop_last().drop_last().len() == 0);
    assert(fields.drop_last().last() == fields[0]);
    assert(with_pairs(mapping, fields) =~= mapping.insert(TRACEPARENT@, text).insert(
        TRACESTATE@,
        Seq::<char>::empty(),
    ));
}

/// Writes `ctx` into `carrier`. A present context sets `traceparent` and
/// `tracestate`; an absent one, or one with a zero identifier, leaves the
/// carrier unmodified.
pub fn inject(ctx: &Option<TraceContext>, carrier: &mut Carrier)
    ensures
        final(carrier)@ == injected(*ctx, old(carrier)@),
{
    match ctx {
        Some(c) => {
            let fields = propagator_fields(c.trace_id, c.span_id, c.flags);
            carrier.set_all(&fields);
            proof {
                if c.valid() {
                    lemma_with_carried(
                        old(carrier)@,
                        fields@,
                        traceparent::text(c.trace_id, c.span_id, c.flags),
                    );
                }
            }
        },
        None => {},
    }
}

/// Reads the context that `carrier` holds. A carrier without a `traceparent`
/// entry, or with one that names no context, gives the absent context.
pub fn extract(carrier: &Carrier) -> (ctx: Option<TraceContext>)
    ensures
        ctx == extracted(carrier@),
        !carrier@.contains_key(TRACEPARENT@) ==> ctx is None,
{
    match carrier.get(TRACEPARENT) {
        Some(header) => {
            let parts = propagator_parts(header.as_str());
            TraceContext::new(parts.0, parts.1, parts.2)
        },
        None => None,
    }
}

/// Round trip: a valid context written into any carrier and read back is
/// there again, with the same trace identifier and the same span identifier,
/// and with the sampled bit of its flags.
pub proof fn law_round_trip(c: TraceContext, mapping: Map<Text, Text>)
    requires
        c.valid(),
    ensures
        extracted(injected(Some(c), mapping)) == Some(
            TraceContext { trace_id: c.trace_id, span_id: c.span_id, flags: c.flags & 1 },
        ),
        extracted(injected(Some(c), mapping))->0.same_identity(&c),
{
    lemma_keys_differ();
    traceparent::lemma_text_round_trip(c.trace_id, c.span_id, c.flags);
}

/// Absence safety: a mapping without the propagation key holds no context.
pub proof fn law_absent_key(mapping: Map<Text, Text>)
    requires
        !mapping.contains_key(TRACEPARENT@),
    ensures
        extracted(mapping) is None,
{
}

/// Writing an absent context changes nothing, so what a carrier held before
/// is what it holds after.
pub proof fn law_absent_context(mapping: Map<Text, Text>)
    ensures
        injected(None, mapping) == mapping,
        extracted(injected(None, mapping)) == extracted(mapping),
{
}

} // verus!
