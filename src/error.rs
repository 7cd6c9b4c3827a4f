//! The three kinds of failure a session call can end in, plus the
//! precondition failure of a call made before registration.
use vstd::prelude::*;
use crate::json::Json;

verus! {

/// A failure reported by the server in an `error` envelope.
#[derive(Debug)]
pub struct Error {
    pub id: i32,
    pub description: Option<String>,
    pub info: Option<String>,
}

/// A response that is valid JSON but not of the shape this client expects.
#[derive(Debug, PartialEq, Eq, Structural, Clone, Copy)]
pub enum ProtocolError {
    /// The response holds neither `success` nor `error`, or is no object.
    MalformedEnvelope,
    /// The `error` value lacks `id`, `description` or `info`, or one has the wrong type.
    MalformedErrorEnvelope,
    /// A payload lacks a field the call needs, or the field has the wrong type.
    MalformedPayload,
    /// A player entry is not a string of the form `<id>:<nickname>`.
    MalformedPlayerEntry,
}

/// Why a session call failed.
#[derive(Debug)]
pub enum SessionError {
    /// The call needs an identity and the session has not registered.
    NotRegistered,
    /// Registration was asked for while an identity is already bound.
    AlreadyRegistered,
    /// The HTTP exchange itself failed; the text says how.
    Transport(String),
    /// The server rejected the call.
    Remote(Error),
    /// The server's answer did not have the expected shape.
    Protocol(ProtocolError),
}

/// The remote error that the value of an `error` envelope describes:
/// an integer `id` that fits in `i32`, and string `description` and `info`.
pub open spec fn remote_error_of(j: Json) -> Option<Error> {
    match (j.field("id"@), j.field("description"@), j.field("info"@)) {
        (Some(Json::Int(n)), Some(Json::Str(d)), Some(Json::Str(i))) => if i32::MIN <= n
            <= i32::MAX {
            Some(Error { id: n as i32, description: Some(d), info: Some(i) })
        } else {
            None
        },
        _ => None,
    }
}

impl Error {
    pub fn new(id: i32, description: Option<String>, info: Option<String>) -> (r: Error)
        ensures
            r.id == id,
            r.description == description,
            r.info == info,
    {
        Error { id, description, info }
    }

    /// Decodes the value of an `error` envelope.
    pub fn from_json(json: &Json) -> (r: Result<Error, ProtocolError>)
        ensures
            remote_error_of(*json) matches Some(e) ==> r == Ok::<Error, ProtocolError>(e),
            remote_error_of(*json) is None ==> r == Err::<Error, ProtocolError>(
                ProtocolError::MalformedErrorEnvelope,
            ),
    {
        let id = match json.get("id") {
            Some(Json::Int(n)) => if i32::MIN as i128 <= *n && *n <= i32::MAX as i128 {
                *n as i32
            } else {
                return Err(ProtocolError::MalformedErrorEnvelope);
            },
            _ => return Err(ProtocolError::MalformedErrorEnvelope),
        };
        let description = match json.get("description") {
            Some(Json::Str(d)) => d.clone(),
            _ => return Err(ProtocolError::MalformedErrorEnvelope),
        };
        let info = match json.get("info") {
            Some(Json::Str(i)) => i.clone(),
            _ => return Err(ProtocolError::MalformedErrorEnvelope),
        };
        Ok(Error { id, description: Some(description), info: Some(info) })
    }
}

} // verus!
