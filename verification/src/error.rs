//! The failures that the operations of this crate report.

use crate::job::JobId;
use serde_json::Error as JsonError;
use vstd::prelude::*;
use vstd::std_specs::convert::FromSpecImpl;

verus! {

/// The failure of a codec, as `serde_json` reports it.
#[verifier::external_type_specification]
#[verifier::external_body]
pub struct ExJsonError(JsonError);

/// The text that the `Display` impl of `serde_json::Error` writes for
/// `error`: the failure's message, followed by the line and column where it
/// has them.
pub uninterp spec fn json_error_text(error: JsonError) -> String;

/// Writes `error` out with the `Display` impl of `serde_json::Error`
/// (`ToString::to_string`). The text is a function of the error alone.
#[verifier::external_body]
fn describe_json_error(error: &JsonError) -> (text: String)
    ensures
        text == json_error_text(*error),
{
    error.to_string()
}

/// Why an operation failed.
#[derive(Debug, PartialEq, Eq)]
pub enum Error {
    /// The storage backend failed.
    StorageError(String),
    /// No job is stored under this identifier.
    JobNotFound(JobId),
    /// The state change was rejected; the text names what was rejected.
    InvalidTransition(String),
    /// A payload could not be encoded or decoded.
    SerializationError(String),
    /// Anything else.
    InternalError(String),
}

impl Error {
    /// The failure in words: what kind it is, then its text or identifier.
    pub open spec fn text(&self) -> Seq<char> {
        match self {
            Error::StorageError(msg) => "Storage error: "@ + msg@,
            Error::JobNotFound(id) => "Job not found: "@ + id@,
            Error::InvalidTransition(msg) => "Invalid transition: "@ + msg@,
            Error::SerializationError(msg) => "Serialization error: "@ + msg@,
            Error::InternalError(msg) => "Internal error: "@ + msg@,
        }
    }

    /// The failure in words.
    pub fn to_string(&self) -> (s: String)
        ensures
            s@ == self.text(),
    {
        match self {
            Error::StorageError(msg) => String::from_str("Storage error: ").concat(msg.as_str()),
            Error::JobNotFound(id) => String::from_str("Job not found: ").concat(id.as_str()),
            Error::InvalidTransition(msg) => String::from_str("Invalid transition: ").concat(
                msg.as_str(),
            ),
            Error::SerializationError(msg) => String::from_str("Serialization error: ").concat(
                msg.as_str(),
            ),
            Error::InternalError(msg) => String::from_str("Internal error: ").concat(msg.as_str()),
        }
    }
}

impl Clone for Error {
    fn clone(&self) -> (copy: Self)
        ensures
            copy == *self,
    {
        match self {
            Error::StorageError(msg) => Error::StorageError(msg.clone()),
            Error::JobNotFound(id) => Error::JobNotFound(id.clone()),
            Error::InvalidTransition(msg) => Error::InvalidTransition(msg.clone()),
            Error::SerializationError(msg) => Error::SerializationError(msg.clone()),
            Error::InternalError(msg) => Error::InternalError(msg.clone()),
        }
    }
}

impl From<JsonError> for Error {
    /// A codec failure becomes a `SerializationError` that carries the
    /// codec's own description of it.
    fn from(error: JsonError) -> (e: Error) {
        Error::SerializationError(describe_json_error(&error))
    }
}

impl FromSpecImpl<JsonError> for Error {
    open spec fn obeys_from_spec() -> bool {
        true
    }

    open spec fn from_spec(error: JsonError) -> Error {
        Error::SerializationError(json_error_text(error))
    }
}

} // verus!
