//! An outgoing HTTP call: the current span's context goes into the headers
//! of the request, and its text is kept for the message that follows.

use vstd::prelude::*;
use vstd::string::*;
use crate::adapter::to_headers;
use crate::carrier::{distinct_keys, lookup, mapping_of, text_of, Carrier, Text};
use crate::codec::{inject, injected, TRACEPARENT};
use crate::context::TraceContext;

verus! {

/// The path of the downstream endpoint.
pub const DEMO_PATH: &'static str = "/demo";

/// A request that is ready to be sent.
#[derive(Debug, Clone, PartialEq, Eq)]
pub struct OutboundCall {
    /// Where the GET goes.
    pub url: String,
    /// The propagation headers, one per carrier entry.
    pub headers: Vec<(String, String)>,
    /// The `traceparent` that was injected, if one was.
    pub trace_parent: Option<String>,
}

/// The entries that the context of the current span puts on a request.
pub open spec fn outbound_mapping(current: TraceContext) -> Map<Text, Text> {
    injected(Some(current), Map::<Text, Text>::empty())
}

/// Prepares the call to the service at `service_url` under the span that
/// `current` names: injects `current` into a fresh carrier, copies every
/// entry into the headers, and captures the injected `traceparent`.
pub fn prepare(current: &TraceContext, service_url: &str) -> (call: OutboundCall)
    ensures
        call.url@ == service_url@ + DEMO_PATH@,
        distinct_keys(call.headers@),
        mapping_of(call.headers@) == outbound_mapping(*current),
        text_of(call.trace_parent) == lookup(outbound_mapping(*current), TRACEPARENT@),
{
    let mut carrier = Carrier::new();
    inject(&Some(*current), &mut carrier);
    let headers = to_headers(&carrier);
    let trace_parent = carrier.get(TRACEPARENT);
    let url = String::from_str(service_url).concat(DEMO_PATH);
    OutboundCall { url, headers, trace_parent }
}

} // verus!
