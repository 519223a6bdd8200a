//! What a unit of work takes from its surroundings rather than from its
//! arguments: the time and fresh identifiers. Nothing is known of these
//! values before they arrive, so the functions that use them say what holds
//! whatever came back.

use vstd::prelude::*;
use chrono::Utc;
use opentelemetry_sdk::trace::{IdGenerator, RandomIdGenerator};
use uuid::Uuid;

verus! {

/// `chrono::Utc::now`, as `DateTime::timestamp_millis`: the milliseconds
/// since the Unix epoch on the system clock, which may step backwards
/// between two calls. `Utc::now` panics on a clock that is set before 1970;
/// no argument of this function can rule that out.
#[verifier::external_body]
pub(crate) fn now_millis() -> i64 {
    Utc::now().timestamp_millis()
}

/// `RandomIdGenerator::new_trace_id`: sixteen random bytes, as a number. Any
/// value may come back, zero included.
#[verifier::external_body]
pub(crate) fn fresh_trace_id() -> u128 {
    u128::from_be_bytes(RandomIdGenerator::default().new_trace_id().to_bytes())
}

/// `RandomIdGenerator::new_span_id`: eight random bytes, as a number. Any
/// value may come back, zero included.
#[verifier::external_body]
pub(crate) fn fresh_span_id() -> u64 {
    u64::from_be_bytes(RandomIdGenerator::default().new_span_id().to_bytes())
}

/// `Uuid::new_v4`, in its hyphenated text: a random identifier for a message.
#[verifier::external_body]
pub(crate) fn fresh_message_id() -> String {
    Uuid::new_v4().to_string()
}

} // verus!
