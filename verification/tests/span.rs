use trace_bridge::context::TraceContext;
use trace_bridge::inbound::{open, open_at, HANDLER_SPAN};
use trace_bridge::span::{Span, SpanKind, KIND_ATTRIBUTE};

const SAMPLE: &str = "00-4bf92f3577b34da6a3ce929d0e0e4736-00f067aa0ba902b7-01";
const SAMPLE_TRACE: u128 = 0x4bf92f3577b34da6a3ce929d0e0e4736;
const SAMPLE_SPAN: u64 = 0x00f067aa0ba902b7;

fn headers(traceparent: &str) -> Vec<(String, String)> {
    vec![
        ("host".to_string(), "example.org".to_string()),
        ("traceparent".to_string(), traceparent.to_string()),
    ]
}

#[test]
fn kinds_have_their_labels() {
    assert_eq!(SpanKind::Server.label(), "SERVER");
    assert_eq!(SpanKind::Client.label(), "CLIENT");
    assert_eq!(SpanKind::Internal.label(), "INTERNAL");
    assert_eq!(KIND_ATTRIBUTE, "otel.kind");
}

#[test]
fn a_span_under_a_parent_stays_in_its_trace() {
    let parent = TraceContext::new(SAMPLE_TRACE, SAMPLE_SPAN, 0).expect("valid");
    let span = Span::start_at("work", SpanKind::Client, Some(parent), 99, 7, 1000);
    assert_eq!(span.kind(), SpanKind::Client);
    assert_eq!(span.start_time(), 1000);
    let own = span.context();
    assert_eq!((own.trace_id, own.span_id, own.flags), (SAMPLE_TRACE, 7, 0));
    let seen = span.parent().expect("a parent");
    assert_eq!((seen.trace_id, seen.span_id, seen.flags), (SAMPLE_TRACE, SAMPLE_SPAN, 0));
    let closed = span.close_at(1500);
    assert_eq!(closed.name, "work");
    assert_eq!(closed.kind, SpanKind::Client);
    assert_eq!(closed.start_time, 1000);
    assert_eq!(closed.end_time, 1500);
    assert_eq!(closed.attributes.len(), 1);
    assert_eq!(closed.attributes.get(KIND_ATTRIBUTE), Some("CLIENT".to_string()));
    assert_eq!(closed.parent.map(|p| p.span_id), Some(SAMPLE_SPAN));
    assert_eq!(closed.context.span_id, 7);
}

#[test]
fn a_span_without_a_parent_opens_a_sampled_trace() {
    let span = Span::start_at("root", SpanKind::Server, None, 99, 7, -3);
    assert!(span.parent().is_none());
    let own = span.context();
    assert_eq!((own.trace_id, own.span_id, own.flags), (99, 7, 1));
    assert_eq!(span.close_at(-3).attributes.get(KIND_ATTRIBUTE), Some("SERVER".to_string()));
}

#[test]
fn a_parent_with_a_zero_identifier_is_no_parent() {
    let nothing = TraceContext { trace_id: 0, span_id: 5, flags: 1 };
    let span = Span::start_at("root", SpanKind::Internal, Some(nothing), 99, 7, 0);
    assert!(span.parent().is_none());
    assert_eq!(span.context().trace_id, 99);
}

#[test]
fn a_drawn_zero_still_names_a_span() {
    let root = Span::start_at("root", SpanKind::Server, None, 0, 0, 0).context();
    assert_eq!((root.trace_id, root.span_id, root.flags), (1, 1, 1));
    assert!(root.is_valid());
    let parent = TraceContext::new(SAMPLE_TRACE, SAMPLE_SPAN, 0).expect("valid");
    let child = Span::start_at("child", SpanKind::Client, Some(parent), 0, 0, 0).context();
    assert_eq!((child.trace_id, child.span_id, child.flags), (SAMPLE_TRACE, 1, 0));
    assert!(Span::start("any", SpanKind::Internal, None).context().is_valid());
}

#[test]
fn attributes_can_be_set_on_an_open_span() {
    let mut span = Span::start_at("work", SpanKind::Internal, None, 1, 2, 3);
    span.set_attribute("http.method", "GET".to_string());
    span.set_attribute(KIND_ATTRIBUTE, "SERVER".to_string());
    let closed = span.close_at(4);
    assert_eq!(closed.attributes.len(), 2);
    assert_eq!(closed.attributes.get("http.method"), Some("GET".to_string()));
    assert_eq!(closed.attributes.get(KIND_ATTRIBUTE), Some("SERVER".to_string()));
    assert_eq!(closed.kind, SpanKind::Internal);
}

#[test]
fn a_started_span_keeps_its_parent_and_draws_the_rest() {
    let parent = TraceContext::new(SAMPLE_TRACE, SAMPLE_SPAN, 1).expect("valid");
    let span = Span::start("work", SpanKind::Internal, Some(parent));
    assert_eq!(span.context().trace_id, SAMPLE_TRACE);
    assert_eq!(span.context().flags, 1);
    assert_eq!(span.parent().map(|p| p.span_id), Some(SAMPLE_SPAN));
    let started = span.start_time();
    let closed = span.close();
    assert_eq!(closed.start_time, started);
    assert_eq!(closed.name, "work");
    assert!(started > 1_600_000_000_000);
}

#[test]
fn two_root_spans_draw_their_own_identifiers() {
    let a = Span::start("a", SpanKind::Server, None).context();
    let b = Span::start("b", SpanKind::Server, None).context();
    assert!(a.trace_id != b.trace_id || a.span_id != b.span_id);
}

#[test]
fn inbound_span_is_a_server_span_under_the_header_context() {
    let span = open_at(&headers(SAMPLE), 1, 2, 3);
    assert_eq!(span.kind(), SpanKind::Server);
    let parent = span.parent().expect("a parent");
    assert_eq!((parent.trace_id, parent.span_id, parent.flags), (SAMPLE_TRACE, SAMPLE_SPAN, 1));
    assert_eq!(span.context().trace_id, SAMPLE_TRACE);
    assert_eq!(span.context().span_id, 2);
    let closed = span.close_at(4);
    assert_eq!(closed.name, HANDLER_SPAN);
    assert_eq!(closed.name, "Handler");
}

#[test]
fn inbound_span_without_the_header_is_a_root_span() {
    let span = open_at(&vec![("host".to_string(), "example.org".to_string())], 1, 2, 3);
    assert!(span.parent().is_none());
    assert_eq!(span.context().trace_id, 1);
    let span = open_at(&Vec::new(), 1, 2, 3);
    assert!(span.parent().is_none());
}

#[test]
fn inbound_span_with_a_malformed_header_is_a_root_span() {
    for bad in ["", "nonsense", "00-xyz-abc-01", "00--00f067aa0ba902b7-01"] {
        let span = open_at(&headers(bad), 1, 2, 3);
        assert!(span.parent().is_none(), "{bad}");
        assert_eq!(span.context().trace_id, 1);
    }
    assert!(open(&headers("nonsense")).parent().is_none());
}
