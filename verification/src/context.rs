//! The identity that links the spans of one trace.

use vstd::prelude::*;

verus! {

/// A trace identifier, the identifier of one span in that trace, and the
/// trace flags. A context whose trace or span identifier is zero names
/// nothing; every operation treats it as absent.
#[derive(Clone, Copy, Debug)]
pub struct TraceContext {
    pub trace_id: u128,
    pub span_id: u64,
    pub flags: u8,
}

impl TraceContext {
    /// Whether both identifiers are set.
    pub open spec fn valid(&self) -> bool {
        self.trace_id != 0 && self.span_id != 0
    }

    /// Whether `self` and `other` name the same span of the same trace.
    /// The flags take no part in it.
    pub open spec fn same_identity(&self, other: &TraceContext) -> bool {
        self.trace_id == other.trace_id && self.span_id == other.span_id
    }

    /// Whether the sampled bit, the lowest of the flags, is set.
    pub open spec fn sampled(&self) -> bool {
        self.flags % 2 == 1
    }

    /// A context of the given parts, or nothing when either identifier is
    /// zero.
    pub fn new(trace_id: u128, span_id: u64, flags: u8) -> (ctx: Option<TraceContext>)
        ensures
            ctx == context_of(trace_id, span_id, flags),
    {
        if trace_id != 0 && span_id != 0 {
            Some(TraceContext { trace_id, span_id, flags })
        } else {
            None
        }
    }

    pub fn is_valid(&self) -> (b: bool)
        ensures
            b == self.valid(),
    {
        self.trace_id != 0 && self.span_id != 0
    }

    pub fn is_sampled(&self) -> (b: bool)
        ensures
            b == self.sampled(),
    {
        self.flags % 2 == 1
    }
}

/// The context made of the given parts: present exactly when both
/// identifiers are set.
pub open spec fn context_of(trace_id: u128, span_id: u64, flags: u8) -> Option<TraceContext> {
    if trace_id != 0 && span_id != 0 {
        Some(TraceContext { trace_id, span_id, flags })
    } else {
        None
    }
}

/// Whether a possibly absent context names a span: it is there and valid.
pub open spec fn present(ctx: Option<TraceContext>) -> bool {
    ctx matches Some(c) && c.valid()
}

impl PartialEq for TraceContext {
    fn eq(&self, other: &TraceContext) -> (b: bool) {
        self.trace_id == other.trace_id && self.span_id == other.span_id
    }
}

impl vstd::std_specs::cmp::PartialEqSpecImpl for TraceContext {
    open spec fn obeys_eq_spec() -> bool {
        true
    }

    open spec fn eq_spec(&self, other: &TraceContext) -> bool {
        self.trace_id == other.trace_id && self.span_id == other.span_id
    }
}

} // verus!
