//! What an HTTP-triggered invocation answers, and why a hop failed.

use vstd::prelude::*;
use crate::carrier::Text;

verus! {

/// The content type of every reply.
pub const JSON_CONTENT_TYPE: &'static str = "application/json";

/// An HTTP response as plain values.
#[derive(Debug, Clone, PartialEq, Eq)]
pub struct HttpReply {
    pub status: u16,
    pub content_type: String,
    pub body: String,
}

/// A reply as plain values.
pub struct HttpReplyView {
    pub status: u16,
    pub content_type: Text,
    pub body: Text,
}

impl View for HttpReply {
    type V = HttpReplyView;

    open spec fn view(&self) -> HttpReplyView {
        HttpReplyView {
            status: self.status,
            content_type: self.content_type@,
            body: self.body@,
        }
    }
}

/// The reply of a served invocation: status 200, JSON, with `body`.
pub open spec fn ok_reply(body: Text) -> HttpReplyView {
    HttpReplyView { status: 200, content_type: JSON_CONTENT_TYPE@, body }
}

impl HttpReply {
    /// The reply of a served invocation.
    pub fn ok(body: String) -> (reply: HttpReply)
        ensures
            reply@ == ok_reply(body@),
    {
        HttpReply { status: 200, content_type: JSON_CONTENT_TYPE.to_owned(), body }
    }
}

/// Why a hop of an invocation failed.
#[derive(Debug, Clone, PartialEq, Eq)]
pub enum BridgeError {
    /// The downstream call failed, with the client's reason.
    DownstreamCallFailure { reason: String },
    /// The downstream service answered with a status outside 200 to 299.
    DownstreamStatusUnexpected { status: u16 },
    /// The downstream service answered with something that is no payload.
    DownstreamBodyUnreadable,
    /// The queue refused the message, with the client's reason.
    QueuePublishFailure { reason: String },
}

} // verus!
