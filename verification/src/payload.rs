//! The business payload that the downstream service answers with.

use vstd::prelude::*;
use vstd::string::*;
use crate::carrier::{text_of, Text};
use crate::json::{
    decimal, integer_member, read_integer_member, read_string_member, string_literal,
    string_member, write_integer, write_string_literal,
};

verus! {

/// A timestamp in milliseconds and a description.
#[derive(Debug, Clone, PartialEq, Eq)]
pub struct AddedContext {
    pub timestamp: i64,
    pub description: String,
}

/// An added context as plain values.
pub struct AddedContextView {
    pub timestamp: i64,
    pub description: Text,
}

impl View for AddedContext {
    type V = AddedContextView;

    open spec fn view(&self) -> AddedContextView {
        AddedContextView { timestamp: self.timestamp, description: self.description@ }
    }
}

/// The payload made of the members that a body holds, if both are there.
pub open spec fn payload_of(timestamp: Option<i64>, description: Option<Text>) -> Option<
    AddedContextView,
> {
    if timestamp is Some && description is Some {
        Some(AddedContextView { timestamp: timestamp->0, description: description->0 })
    } else {
        None
    }
}

/// What a JSON body reads as.
pub open spec fn parsed(body: Text) -> Option<AddedContextView> {
    payload_of(integer_member(body, "timestamp"@), string_member(body, "description"@))
}

/// The view of a payload that may be missing.
pub open spec fn option_view(payload: Option<AddedContext>) -> Option<AddedContextView> {
    match payload {
        Some(p) => Some(p@),
        None => None,
    }
}

/// The JSON text of a payload: an object of its two members.
pub open spec fn json_text(payload: AddedContextView) -> Text {
    "{\"timestamp\":"@ + decimal(payload.timestamp as int) + ",\"description\":"@
        + string_literal(payload.description) + "}"@
}

impl AddedContext {
    /// The payload made of the members read from a body.
    pub fn from_members(timestamp: Option<i64>, description: Option<String>) -> (payload: Option<
        AddedContext,
    >)
        ensures
            option_view(payload) == payload_of(timestamp, text_of(description)),
    {
        match timestamp {
            Some(timestamp) => match description {
                Some(description) => Some(AddedContext { timestamp, description }),
                None => None,
            },
            None => None,
        }
    }

    /// Reads a payload from the JSON text of a response.
    pub fn from_json(body: &str) -> (payload: Option<AddedContext>)
        ensures
            option_view(payload) == parsed(body@),
    {
        let timestamp = read_integer_member(body, "timestamp");
        let description = read_string_member(body, "description");
        AddedContext::from_members(timestamp, description)
    }

    /// The JSON text of the payload.
    pub fn to_json(&self) -> (text: String)
        ensures
            text@ == json_text(self@),
    {
        let mut text = String::from_str("{\"timestamp\":");
        text.append(write_integer(self.timestamp).as_str());
        text.append(",\"description\":");
        text.append(write_string_literal(self.description.as_str()).as_str());
        text.append("}");
        text
    }
}

} // verus!
