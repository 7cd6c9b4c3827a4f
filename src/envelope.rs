//! Unwrapping the `{"success": ...}` / `{"error": {...}}` response envelope.
use vstd::prelude::*;
use crate::error::{remote_error_of, Error, ProtocolError, SessionError};
use crate::json::{find_key, Json};
use vstd::string::StringExecFns;

verus! {

/// What an envelope yields: the `success` payload as it stands, else the
/// remote error that `error` describes, else a protocol error.
pub open spec fn envelope_result(resp: Json) -> Result<Json, SessionError> {
    match resp.field("success"@) {
        Some(payload) => Ok(payload),
        None => match resp.field("error"@) {
            Some(e) => match remote_error_of(e) {
                Some(err) => Err(SessionError::Remote(err)),
                None => Err(SessionError::Protocol(ProtocolError::MalformedErrorEnvelope)),
            },
            None => Err(SessionError::Protocol(ProtocolError::MalformedEnvelope)),
        },
    }
}

/// Unwraps a response envelope.
pub fn parse_envelope(resp: Json) -> (r: Result<Json, SessionError>)
    ensures
        r == envelope_result(resp),
        resp.field("success"@) matches Some(p) ==> r == Ok::<Json, SessionError>(p),
        resp.field("success"@) is None ==> match resp.field("error"@) {
            Some(e) => match remote_error_of(e) {
                Some(err) => r == Err::<Json, SessionError>(SessionError::Remote(err)),
                None => r == Err::<Json, SessionError>(
                    SessionError::Protocol(ProtocolError::MalformedErrorEnvelope),
                ),
            },
            None => r == Err::<Json, SessionError>(
                SessionError::Protocol(ProtocolError::MalformedEnvelope),
            ),
        },
{
    match resp {
        Json::Object(mut entries) => {
            let success = String::from_str("success");
            match find_key(&entries, &success) {
                Some(i) => {
                    let (_, payload) = entries.remove(i);
                    Ok(payload)
                },
                None => {
                    let error = String::from_str("error");
                    match find_key(&entries, &error) {
                        Some(i) => match Error::from_json(&entries[i].1) {
                            Ok(e) => Err(SessionError::Remote(e)),
                            Err(p) => Err(SessionError::Protocol(p)),
                        },
                        None => Err(SessionError::Protocol(ProtocolError::MalformedEnvelope)),
                    }
                },
            }
        },
        _ => Err(SessionError::Protocol(ProtocolError::MalformedEnvelope)),
    }
}

} // verus!
