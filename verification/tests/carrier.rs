use trace_bridge::adapter::{from_correlation_id, from_headers, to_correlation_id, to_headers};
use trace_bridge::carrier::Carrier;
use trace_bridge::codec::{extract, TRACEPARENT};

fn pair(key: &str, value: &str) -> (String, String) {
    (key.to_string(), value.to_string())
}

#[test]
fn new_carrier_is_empty() {
    let carrier = Carrier::new();
    assert_eq!(carrier.len(), 0);
    assert_eq!(carrier.get("traceparent"), None);
    assert!(carrier.entries().is_empty());
}

#[test]
fn set_then_get_gives_the_value() {
    let mut carrier = Carrier::new();
    carrier.set("a", "1".to_string());
    carrier.set("b", "2".to_string());
    assert_eq!(carrier.get("a"), Some("1".to_string()));
    assert_eq!(carrier.get("b"), Some("2".to_string()));
    assert_eq!(carrier.get("c"), None);
    assert_eq!(carrier.len(), 2);
}

#[test]
fn set_replaces_the_value_of_a_key() {
    let mut carrier = Carrier::new();
    carrier.set("a", "1".to_string());
    carrier.set("b", "2".to_string());
    carrier.set("a", "3".to_string());
    assert_eq!(carrier.get("a"), Some("3".to_string()));
    assert_eq!(carrier.get("b"), Some("2".to_string()));
    assert_eq!(carrier.len(), 2);
}

#[test]
fn keys_are_compared_exactly() {
    let mut carrier = Carrier::new();
    carrier.set("Key", "upper".to_string());
    carrier.set("key", "lower".to_string());
    carrier.set("", "empty".to_string());
    assert_eq!(carrier.get("Key"), Some("upper".to_string()));
    assert_eq!(carrier.get("key"), Some("lower".to_string()));
    assert_eq!(carrier.get(""), Some("empty".to_string()));
    assert_eq!(carrier.get("KEY"), None);
    assert_eq!(carrier.len(), 3);
}

#[test]
fn set_all_sets_each_pair_and_the_later_counts() {
    let mut carrier = Carrier::new();
    carrier.set("a", "0".to_string());
    carrier.set_all(&vec![pair("a", "1"), pair("b", "2"), pair("a", "3")]);
    assert_eq!(carrier.get("a"), Some("3".to_string()));
    assert_eq!(carrier.get("b"), Some("2".to_string()));
    assert_eq!(carrier.len(), 2);
}

#[test]
fn entries_hold_one_pair_for_each_key() {
    let mut carrier = Carrier::new();
    carrier.set("b", "2".to_string());
    carrier.set("a", "1".to_string());
    carrier.set("b", "4".to_string());
    let mut entries = carrier.entries();
    entries.sort();
    assert_eq!(entries, vec![pair("a", "1"), pair("b", "4")]);
}

#[test]
fn headers_become_entries_under_their_own_names() {
    let headers = vec![
        pair("traceparent", "00-4bf92f3577b34da6a3ce929d0e0e4736-00f067aa0ba902b7-01"),
        pair("tracestate", "vendor=value"),
        pair("content-type", "text/plain"),
    ];
    let carrier = from_headers(&headers);
    assert_eq!(carrier.len(), 3);
    assert_eq!(carrier.get("tracestate"), Some("vendor=value".to_string()));
    assert_eq!(carrier.get("content-type"), Some("text/plain".to_string()));
    assert!(extract(&carrier).is_some());
}

#[test]
fn of_two_headers_with_one_name_the_later_counts() {
    let carrier = from_headers(&vec![pair("x", "1"), pair("x", "2")]);
    assert_eq!(carrier.len(), 1);
    assert_eq!(carrier.get("x"), Some("2".to_string()));
}

#[test]
fn every_entry_transits_through_headers_unmodified() {
    let mut carrier = Carrier::new();
    carrier.set("traceparent", "00-0af7651916cd43dd8448eb211c80319c-b7ad6b7169203331-01".to_string());
    carrier.set("tracestate", "vendorname1=opaqueValue1,vendorname2=opaqueValue2".to_string());
    carrier.set("baggage", "k=v".to_string());
    let headers = to_headers(&carrier);
    assert_eq!(headers.len(), 3);
    let back = from_headers(&headers);
    assert_eq!(back.len(), 3);
    for (key, value) in carrier.entries() {
        assert_eq!(back.get(&key), Some(value));
    }
}

#[test]
fn correlation_field_maps_to_the_traceparent_key() {
    let text = "00-4bf92f3577b34da6a3ce929d0e0e4736-00f067aa0ba902b7-01";
    let carrier = from_correlation_id(text);
    assert_eq!(carrier.len(), 1);
    assert_eq!(carrier.get(TRACEPARENT), Some(text.to_string()));
    assert_eq!(to_correlation_id(&carrier), text);
}

#[test]
fn empty_correlation_field_gives_an_empty_carrier() {
    let carrier = from_correlation_id("");
    assert_eq!(carrier.len(), 0);
    assert!(extract(&carrier).is_none());
    assert_eq!(to_correlation_id(&carrier), "");
}

#[test]
fn correlation_field_of_a_carrier_ignores_other_keys() {
    let mut carrier = Carrier::new();
    carrier.set("tracestate", "a=b".to_string());
    assert_eq!(to_correlation_id(&carrier), "");
    carrier.set(TRACEPARENT, "anything".to_string());
    assert_eq!(to_correlation_id(&carrier), "anything");
}
