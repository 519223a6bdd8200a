//! Publishing to a queue that has no headers: the context travels in the
//! correlation field of the message.

use vstd::prelude::*;
use crate::carrier::Text;
use crate::envelope::{json_text, Envelope, EnvelopeView};
use crate::reply::BridgeError;

verus! {

/// The correlation field for a captured `traceparent`: its text, or the
/// empty string where none was captured.
pub open spec fn correlation_of(trace_parent: Option<String>) -> Text {
    match trace_parent {
        Some(text) => text@,
        None => Seq::empty(),
    }
}

/// The message that carries `payload` under `trace_parent`.
pub open spec fn message_text(payload: EnvelopeView, trace_parent: Option<String>) -> Text {
    json_text(EnvelopeView { correlation_id: correlation_of(trace_parent), ..payload })
}

/// The body of the queue message for `payload`: its correlation field is set
/// to the captured `traceparent`, or to the empty string where there is
/// none, and the envelope is written as JSON.
pub fn post_message(payload: Envelope, trace_parent: Option<String>) -> (message: String)
    ensures
        message@ == message_text(payload@, trace_parent),
{
    let mut payload = payload;
    payload.set_correlation_id(
        match trace_parent {
            Some(text) => text,
            None => String::new(),
        },
    );
    payload.to_json()
}

/// What the publish call's result means for the invocation: a refusal is a
/// failure of its own kind, with the client's reason.
pub fn published(sent: Result<(), String>) -> (r: Result<(), BridgeError>)
    ensures
        match sent {
            Ok(_) => r is Ok,
            Err(reason) => r == Err::<(), BridgeError>(
                BridgeError::QueuePublishFailure { reason },
            ),
        },
{
    match sent {
        Ok(_) => Ok(()),
        Err(reason) => Err(BridgeError::QueuePublishFailure { reason }),
    }
}

} // verus!
