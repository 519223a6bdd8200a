//! Carriers on their transports: a set of HTTP headers, and the one field of
//! a queue message that stands in for headers.

use vstd::prelude::*;
use crate::carrier::{
    distinct_keys, lemma_with_pairs_distinct, lookup, mapping_of, with_pairs, Carrier, Text,
};
use crate::codec::{extracted, TRACEPARENT};

verus! {

/// The carrier of a header collection: every header is an entry, under its
/// own name. Names are taken as they are given; HTTP libraries hand them
/// over in lower case. Of two headers with one name the later counts.
pub fn from_headers(headers: &Vec<(String, String)>) -> (carrier: Carrier)
    ensures
        carrier@ == with_pairs(Map::<Text, Text>::empty(), headers@),
{
    let mut carrier = Carrier::new();
    carrier.set_all(headers);
    carrier
}

/// The headers of a carrier: every entry is a header, under its own key.
pub fn to_headers(carrier: &Carrier) -> (headers: Vec<(String, String)>)
    ensures
        distinct_keys(headers@),
        mapping_of(headers@) == carrier@,
{
    carrier.entries()
}

/// The mapping that a correlation field stands for: its text under
/// `traceparent`, or nothing where the field is empty.
pub open spec fn correlation_mapping(correlation_id: Text) -> Map<Text, Text> {
    if correlation_id.len() == 0 {
        Map::<Text, Text>::empty()
    } else {
        Map::<Text, Text>::empty().insert(TRACEPARENT@, correlation_id)
    }
}

/// The correlation field that a mapping stands for: what it holds under
/// `traceparent`, or the empty string.
pub open spec fn correlation_text(mapping: Map<Text, Text>) -> Text {
    match lookup(mapping, TRACEPARENT@) {
        Some(text) => text,
        None => Seq::empty(),
    }
}

/// The carrier of a correlation field.
pub fn from_correlation_id(correlation_id: &str) -> (carrier: Carrier)
    ensures
        carrier@ == correlation_mapping(correlation_id@),
{
    let mut carrier = Carrier::new();
    if !correlation_id.is_empty() {
        carrier.set(TRACEPARENT, correlation_id.to_owned());
    }
    carrier
}

/// The correlation field of a carrier.
pub fn to_correlation_id(carrier: &Carrier) -> (correlation_id: String)
    ensures
        correlation_id@ == correlation_text(carrier@),
{
    match carrier.get(TRACEPARENT) {
        Some(text) => text,
        None => String::new(),
    }
}

/// The headers of a carrier, read back as a carrier, are that carrier: every
/// entry transits unmodified.
pub proof fn law_headers_transit(headers: Seq<(String, String)>, mapping: Map<Text, Text>)
    requires
        distinct_keys(headers),
        mapping_of(headers) == mapping,
    ensures
        with_pairs(Map::<Text, Text>::empty(), headers) == mapping,
{
    lemma_with_pairs_distinct(headers);
}

/// A correlation field written from a mapping and read back holds the same
/// context as the mapping.
pub proof fn law_correlation_transit(mapping: Map<Text, Text>)
    requires
        correlation_text(mapping).len() > 0,
    ensures
        extracted(correlation_mapping(correlation_text(mapping))) == extracted(mapping),
{
}

/// An empty correlation field holds no context.
pub proof fn law_empty_correlation()
    ensures
        extracted(correlation_mapping(Seq::empty())) is None,
{
}

} // verus!
