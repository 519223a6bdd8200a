//! Spans: one timed unit of work each, with an optional parent.
//!
//! A span is started at the top of a unit of work and closed when that unit
//! ends. Closing consumes the span, so a span is closed at most once, and a
//! function that starts one and returns its closed form has closed it on
//! every path.

use vstd::prelude::*;
use crate::ambient::{fresh_span_id, fresh_trace_id, now_millis};
use crate::carrier::{Carrier, Text};
use crate::context::{present, TraceContext};

verus! {

/// The attribute that names the kind of a span.
pub const KIND_ATTRIBUTE: &'static str = "otel.kind";

/// The role of a span in a call.
#[derive(Debug, Clone, Copy, PartialEq, Eq, Structural)]
pub enum SpanKind {
    Server,
    Client,
    Internal,
}

impl SpanKind {
    /// The value of the kind attribute.
    pub open spec fn label_text(self) -> Text {
        match self {
            SpanKind::Server => "SERVER"@,
            SpanKind::Client => "CLIENT"@,
            SpanKind::Internal => "INTERNAL"@,
        }
    }

    pub fn label(&self) -> (label: &'static str)
        ensures
            label@ == self.label_text(),
    {
        match self {
            SpanKind::Server => "SERVER",
            SpanKind::Client => "CLIENT",
            SpanKind::Internal => "INTERNAL",
        }
    }
}

/// A span as plain values.
pub struct SpanView {
    pub name: Text,
    pub kind: SpanKind,
    pub parent: Option<TraceContext>,
    pub context: TraceContext,
    pub attributes: Map<Text, Text>,
    pub start_time: i64,
}

/// The parent that a span takes from what was extracted: a context that
/// names a span, or none.
pub open spec fn parent_of(extracted: Option<TraceContext>) -> Option<TraceContext> {
    if present(extracted) {
        extracted
    } else {
        None
    }
}

/// The trace identifier that a drawn number gives: itself, or 1 for a drawn
/// zero, which would name no trace.
pub open spec fn trace_id_from(drawn: u128) -> u128 {
    if drawn == 0 {
        1
    } else {
        drawn
    }
}

/// The span identifier that a drawn number gives: itself, or 1 for a drawn
/// zero, which would name no span.
pub open spec fn span_id_from(drawn: u64) -> u64 {
    if drawn == 0 {
        1
    } else {
        drawn
    }
}

/// The context of a new span. Under a parent it stays in the parent's trace
/// and keeps the parent's flags; without one it opens the trace of the drawn
/// `trace_id`, sampled. Either way its span identifier is that of the drawn
/// `span_id`, so the context always names a span.
pub open spec fn context_under(
    parent: Option<TraceContext>,
    trace_id: u128,
    span_id: u64,
) -> TraceContext {
    match parent_of(parent) {
        Some(p) => TraceContext {
            trace_id: p.trace_id,
            span_id: span_id_from(span_id),
            flags: p.flags,
        },
        None => TraceContext {
            trace_id: trace_id_from(trace_id),
            span_id: span_id_from(span_id),
            flags: 1,
        },
    }
}

/// The span that starts at `now` with the given drawn identifiers.
pub open spec fn started(
    name: Text,
    kind: SpanKind,
    parent: Option<TraceContext>,
    trace_id: u128,
    span_id: u64,
    now: i64,
) -> SpanView {
    SpanView {
        name,
        kind,
        parent: parent_of(parent),
        context: context_under(parent, trace_id, span_id),
        attributes: Map::<Text, Text>::empty().insert(KIND_ATTRIBUTE@, kind.label_text()),
        start_time: now,
    }
}

/// An open span.
pub struct Span {
    name: String,
    kind: SpanKind,
    parent: Option<TraceContext>,
    context: TraceContext,
    attributes: Carrier,
    start_time: i64,
}

impl View for Span {
    type V = SpanView;

    closed spec fn view(&self) -> SpanView {
        SpanView {
            name: self.name@,
            kind: self.kind,
            parent: self.parent,
            context: self.context,
            attributes: self.attributes@,
            start_time: self.start_time,
        }
    }
}

/// A span that has ended.
pub struct ClosedSpan {
    pub name: String,
    pub kind: SpanKind,
    pub parent: Option<TraceContext>,
    pub context: TraceContext,
    pub attributes: Carrier,
    pub start_time: i64,
    pub end_time: i64,
}

/// A closed span as plain values.
pub struct ClosedSpanView {
    pub span: SpanView,
    pub end_time: i64,
}

impl View for ClosedSpan {
    type V = ClosedSpanView;

    open spec fn view(&self) -> ClosedSpanView {
        ClosedSpanView {
            span: SpanView {
                name: self.name@,
                kind: self.kind,
                parent: self.parent,
                context: self.context,
                attributes: self.attributes@,
                start_time: self.start_time,
            },
            end_time: self.end_time,
        }
    }
}

impl Span {
    /// Starts a span at `now` with the given drawn identifiers. A parent
    /// that names no span is no parent.
    pub fn start_at(
        name: &str,
        kind: SpanKind,
        parent: Option<TraceContext>,
        trace_id: u128,
        span_id: u64,
        now: i64,
    ) -> (span: Span)
        ensures
            span@ == started(name@, kind, parent, trace_id, span_id, now),
            span@.context.valid(),
    {
        let parent = match parent {
            Some(p) => if p.is_valid() {
                Some(p)
            } else {
                None
            },
            None => None,
        };
        let span_id = if span_id == 0 {
            1
        } else {
            span_id
        };
        let context = match parent {
            Some(p) => TraceContext { trace_id: p.trace_id, span_id, flags: p.flags },
            None => TraceContext {
                trace_id: if trace_id == 0 {
                    1
                } else {
                    trace_id
                },
                span_id,
                flags: 1,
            },
        };
        let mut attributes = Carrier::new();
        attributes.set(KIND_ATTRIBUTE, kind.label().to_owned());
        Span { name: name.to_owned(), kind, parent, context, attributes, start_time: now }
    }

    /// Starts a span now, with identifiers drawn at random. Everything but
    /// the drawn identifiers and the time is fixed by the arguments.
    pub fn start(name: &str, kind: SpanKind, parent: Option<TraceContext>) -> (span: Span)
        ensures
            span@ == started(
                name@,
                kind,
                parent,
                span@.context.trace_id,
                span@.context.span_id,
                span@.start_time,
            ),
            span@.context.valid(),
    {
        let trace_id = fresh_trace_id();
        let span_id = fresh_span_id();
        let now = now_millis();
        Span::start_at(name, kind, parent, trace_id, span_id, now)
    }

    /// Sets an attribute of the span.
    pub fn set_attribute(&mut self, key: &str, value: String)
        ensures
            final(self)@ == (SpanView {
                attributes: old(self)@.attributes.insert(key@, value@),
                ..old(self)@
            }),
    {
        self.attributes.set(key, value);
    }

    /// The context that names this span: what a nested operation injects.
    pub fn context(&self) -> (ctx: TraceContext)
        ensures
            ctx == self@.context,
    {
        self.context
    }

    pub fn parent(&self) -> (parent: Option<TraceContext>)
        ensures
            parent == self@.parent,
    {
        self.parent
    }

    pub fn kind(&self) -> (kind: SpanKind)
        ensures
            kind == self@.kind,
    {
        self.kind
    }

    pub fn start_time(&self) -> (t: i64)
        ensures
            t == self@.start_time,
    {
        self.start_time
    }

    /// Closes the span at `now`.
    pub fn close_at(self, now: i64) -> (closed: ClosedSpan)
        ensures
            closed@ == (ClosedSpanView { span: self@, end_time: now }),
    {
        ClosedSpan {
            name: self.name,
            kind: self.kind,
            parent: self.parent,
            context: self.context,
            attributes: self.attributes,
            start_time: self.start_time,
            end_time: now,
        }
    }

    /// Closes the span now.
    pub fn close(self) -> (closed: ClosedSpan)
        ensures
            closed@.span == self@,
    {
        let now = now_millis();
        self.close_at(now)
    }
}

} // verus!
