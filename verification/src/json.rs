//! JSON documents, held as their text.

use vstd::prelude::*;
use crate::error::ValidationError;

verus! {

/// What `serde_json::from_str` makes of a text that it is to read as a
/// `serde_json::Value`: it accepts the text as a JSON document, or it stops
/// on an error, of which this is the message.
pub uninterp spec fn json_reading(text: Seq<char>) -> Result<(), Seq<char>>;

/// Has `serde_json::from_str` read `text` as a `serde_json::Value`, and says
/// whether it accepted the text; where it did not, the error is handed back
/// as its message. Nothing more is claimed than that the answer is what
/// `json_reading` names for this text: that the same text is always answered
/// alike.
#[verifier::external_body]
pub(crate) fn read_json(text: &str) -> (r: Result<(), String>)
    ensures
        json_reading(text@) == match r {
            Ok(_) => Ok::<(), Seq<char>>(()),
            Err(message) => Err::<(), Seq<char>>(message@),
        },
{
    match serde_json::from_str::<serde_json::Value>(text) {
        Ok(_) => Ok(()),
        Err(error) => Err(error.to_string()),
    }
}

/// A JSON document, held as its text.
#[derive(Debug, PartialEq, Eq)]
pub struct JsonValue {
    text: String,
}

impl View for JsonValue {
    type V = Seq<char>;

    closed spec fn view(&self) -> Seq<char> {
        self.text@
    }
}

impl Clone for JsonValue {
    fn clone(&self) -> (r: JsonValue)
        ensures
            r@ == self@,
    {
        JsonValue { text: self.text.clone() }
    }
}

impl JsonValue {
    /// Turns a text and the outcome of reading it into a document or a
    /// validation error.
    pub fn from_reading(text: &str, reading: Result<(), String>) -> (r: Result<
        JsonValue,
        ValidationError,
    >)
        ensures
            match reading {
                Ok(_) => r matches Ok(value) && value@ == text@,
                Err(message) => r matches Err(error) && error@ == message@,
            },
    {
        match reading {
            Ok(_) => Ok(JsonValue { text: text.to_owned() }),
            Err(message) => Err(ValidationError { reason: message }),
        }
    }

    /// Takes `text` for the JSON document it is. A text that is no JSON
    /// document is a validation error.
    pub fn parse(text: &str) -> (r: Result<JsonValue, ValidationError>)
        ensures
            match json_reading(text@) {
                Ok(_) => r matches Ok(value) && value@ == text@,
                Err(message) => r matches Err(error) && error@ == message,
            },
    {
        JsonValue::from_reading(text, read_json(text))
    }

    /// The document's text.
    pub fn as_str(&self) -> (r: &str)
        ensures
            r@ == self@,
    {
        self.text.as_str()
    }
}

} // verus!
