//! The message that crosses the queue: the business fields and the one
//! field that carries the trace context.

use vstd::prelude::*;
use vstd::string::*;
use crate::carrier::{text_of, Text};
use crate::json::{
    decimal, integer_member, read_integer_member, read_string_member, string_literal,
    string_member, write_integer, write_string_literal,
};

verus! {

/// A queue message. The business fields are fixed when the envelope is made;
/// only the correlation field can be set afterwards. It holds a serialized
/// trace context, or the empty string where there is none.
#[derive(Debug, Clone, PartialEq, Eq)]
pub struct Envelope {
    timestamp: i64,
    description: String,
    id: String,
    correlation_id: String,
}

/// An envelope as plain values.
pub struct EnvelopeView {
    pub timestamp: i64,
    pub description: Text,
    pub id: Text,
    pub correlation_id: Text,
}

impl View for Envelope {
    type V = EnvelopeView;

    closed spec fn view(&self) -> EnvelopeView {
        EnvelopeView {
            timestamp: self.timestamp,
            description: self.description@,
            id: self.id@,
            correlation_id: self.correlation_id@,
        }
    }
}

/// Why a queue record could not be turned into an envelope.
#[derive(Debug, Clone, Copy, PartialEq, Eq, Structural)]
pub enum RecordError {
    /// The record has no body.
    NoBody,
    /// The body is not a JSON object with an integer `timestamp`.
    NoTimestamp,
    /// The body has no string `description`.
    NoDescription,
    /// The body has no string `id`.
    NoId,
}

/// The envelope made of the members that a body holds, or the first thing
/// that is missing. A missing correlation field is no error: it reads as the
/// empty string.
pub open spec fn envelope_of(
    timestamp: Option<i64>,
    description: Option<Text>,
    id: Option<Text>,
    correlation_id: Option<Text>,
) -> Result<EnvelopeView, RecordError> {
    if timestamp is None {
        Err(RecordError::NoTimestamp)
    } else if description is None {
        Err(RecordError::NoDescription)
    } else if id is None {
        Err(RecordError::NoId)
    } else {
        Ok(
            EnvelopeView {
                timestamp: timestamp->0,
                description: description->0,
                id: id->0,
                correlation_id: match correlation_id {
                    Some(c) => c,
                    None => Seq::empty(),
                },
            },
        )
    }
}

/// What a JSON body reads as.
pub open spec fn parsed(body: Text) -> Result<EnvelopeView, RecordError> {
    envelope_of(
        integer_member(body, "timestamp"@),
        string_member(body, "description"@),
        string_member(body, "id"@),
        string_member(body, "correlation_id"@),
    )
}

/// The view of a parse result.
pub open spec fn result_view(r: Result<Envelope, RecordError>) -> Result<
    EnvelopeView,
    RecordError,
> {
    match r {
        Ok(e) => Ok(e@),
        Err(x) => Err(x),
    }
}

/// The JSON text of an envelope: an object of its four members, in the
/// order of the fields.
pub open spec fn json_text(e: EnvelopeView) -> Text {
    "{\"timestamp\":"@ + decimal(e.timestamp as int) + ",\"description\":"@ + string_literal(
        e.description,
    ) + ",\"id\":"@ + string_literal(e.id) + ",\"correlation_id\":"@ + string_literal(
        e.correlation_id,
    ) + "}"@
}

/// The line that describes an envelope in a log.
pub open spec fn log_text(e: EnvelopeView) -> Text {
    "(Timestamp)="@ + decimal(e.timestamp as int) + "|(Description)="@ + e.description
        + "|(Id)="@ + e.id + "|(CorrelationId)="@ + e.correlation_id
}

impl Envelope {
    /// The envelope of the given business fields, carrying `trace_parent`,
    /// or the empty string where none was captured.
    pub fn new(timestamp: i64, description: String, id: String, trace_parent: Option<String>) -> (e:
        Envelope)
        ensures
            e@ == (EnvelopeView {
                timestamp,
                description: description@,
                id: id@,
                correlation_id: match trace_parent {
                    Some(t) => t@,
                    None => Seq::empty(),
                },
            }),
    {
        let correlation_id = match trace_parent {
            Some(t) => t,
            None => String::new(),
        };
        Envelope { timestamp, description, id, correlation_id }
    }

    pub fn timestamp(&self) -> (timestamp: i64)
        ensures
            timestamp == self@.timestamp,
    {
        self.timestamp
    }

    pub fn description(&self) -> (description: &str)
        ensures
            description@ == self@.description,
    {
        self.description.as_str()
    }

    pub fn id(&self) -> (id: &str)
        ensures
            id@ == self@.id,
    {
        self.id.as_str()
    }

    pub fn correlation_id(&self) -> (correlation_id: &str)
        ensures
            correlation_id@ == self@.correlation_id,
    {
        self.correlation_id.as_str()
    }

    /// Sets the correlation field. The business fields stay as they are.
    pub fn set_correlation_id(&mut self, correlation_id: String)
        ensures
            final(self)@ == (EnvelopeView { correlation_id: correlation_id@, ..old(self)@ }),
    {
        self.correlation_id = correlation_id;
    }

    /// The envelope made of the members read from a body.
    pub fn from_members(
        timestamp: Option<i64>,
        description: Option<String>,
        id: Option<String>,
        correlation_id: Option<String>,
    ) -> (r: Result<Envelope, RecordError>)
        ensures
            result_view(r) == envelope_of(
                timestamp,
                text_of(description),
                text_of(id),
                text_of(correlation_id),
            ),
    {
        let timestamp = match timestamp {
            Some(t) => t,
            None => { return Err(RecordError::NoTimestamp); },
        };
        let description = match description {
            Some(d) => d,
            None => { return Err(RecordError::NoDescription); },
        };
        let id = match id {
            Some(i) => i,
            None => { return Err(RecordError::NoId); },
        };
        let correlation_id = match correlation_id {
            Some(c) => c,
            None => String::new(),
        };
        Ok(Envelope { timestamp, description, id, correlation_id })
    }

    /// Reads an envelope from the JSON text of a queue message.
    pub fn from_json(body: &str) -> (r: Result<Envelope, RecordError>)
        ensures
            result_view(r) == parsed(body@),
    {
        let timestamp = read_integer_member(body, "timestamp");
        let description = read_string_member(body, "description");
        let id = read_string_member(body, "id");
        let correlation_id = read_string_member(body, "correlation_id");
        Envelope::from_members(timestamp, description, id, correlation_id)
    }

    /// The JSON text of the envelope, as it goes on the queue.
    pub fn to_json(&self) -> (text: String)
        ensures
            text@ == json_text(self@),
    {
        let mut text = String::from_str("{\"timestamp\":");
        text.append(write_integer(self.timestamp).as_str());
        text.append(",\"description\":");
        text.append(write_string_literal(self.description.as_str()).as_str());
        text.append(",\"id\":");
        text.append(write_string_literal(self.id.as_str()).as_str());
        text.append(",\"correlation_id\":");
        text.append(write_string_literal(self.correlation_id.as_str()).as_str());
        text.append("}");
        text
    }

    /// The line that describes the envelope in a log.
    pub fn to_log_line(&self) -> (line: String)
        ensures
            line@ == log_text(self@),
    {
        let mut line = String::from_str("(Timestamp)=");
        line.append(write_integer(self.timestamp).as_str());
        line.append("|(Description)=");
        line.append(self.description.as_str());
        line.append("|(Id)=");
        line.append(self.id.as_str());
        line.append("|(CorrelationId)=");
        line.append(self.correlation_id.as_str());
        line
    }
}

} // verus!
