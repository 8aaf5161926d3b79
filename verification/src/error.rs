//! The one error type that every failed dispatch ends in.

use crate::status::StatusCode;
use vstd::prelude::*;
use vstd::std_specs::convert::FromSpecImpl;

verus! {

/// `serde_json::Error`, carried as it is: nothing of what it holds is visible here.
#[verifier::external_type_specification]
#[verifier::external_body]
pub struct ExJsonError(serde_json::Error);

/// Why a dispatch produced no response.
#[derive(Debug)]
pub enum DispatchError {
    /// No handler is registered for the request's method and path.
    NotFound,
    /// The handler ran and failed, with the status and message it gave.
    Handler { status: StatusCode, message: String },
    /// The handler succeeded, but its payload has no JSON text.
    Serialization(serde_json::Error),
}

impl DispatchError {
    /// The number of the status that goes with this error.
    pub open spec fn status_number(self) -> int {
        match self {
            DispatchError::NotFound => 404,
            DispatchError::Handler { status, .. } => status@,
            DispatchError::Serialization(_) => 500,
        }
    }

    /// What becomes of a failure described by an optional status and a message: the status is
    /// kept where there is one and is 500 where there is none; the message is kept.
    pub open spec fn described(status: Option<StatusCode>, message: String, r: DispatchError) -> bool {
        &&& r matches DispatchError::Handler { status: s, message: m }
        &&& m == message
        &&& match status {
            Some(given) => s == given,
            None => s@ == 500,
        }
    }

    /// The error of a handler that failed with `message`, under `status` or, without one,
    /// under 500 Internal Server Error.
    pub fn from_parts(status: Option<StatusCode>, message: String) -> (r: DispatchError)
        ensures
            Self::described(status, message, r),
    {
        let status = match status {
            Some(given) => given,
            None => StatusCode::internal_server_error(),
        };
        DispatchError::Handler { status, message }
    }

    /// The status that goes with this error.
    pub fn status(&self) -> (r: StatusCode)
        ensures
            r@ == self.status_number(),
    {
        match self {
            DispatchError::NotFound => StatusCode::not_found(),
            DispatchError::Handler { status, .. } => *status,
            DispatchError::Serialization(_) => StatusCode::internal_server_error(),
        }
    }

    /// A message for a human reader: the status's name for an unmatched request, the handler's
    /// own message for a handler's failure, the encoder's for a payload it could not encode.
    pub fn message(&self) -> (r: String)
        ensures
            self is NotFound ==> r@ == "Not Found"@,
            self matches DispatchError::Handler { message, .. } ==> r@ == message@,
            self matches DispatchError::Serialization(error)
                ==> vstd::string::to_string_from_display_ensures::<serde_json::Error>(&error, r),
    {
        match self {
            DispatchError::NotFound => "Not Found".to_owned(),
            DispatchError::Handler { message, .. } => message.clone(),
            DispatchError::Serialization(error) => error.to_string(),
        }
    }
}

impl From<serde_json::Error> for DispatchError {
    fn from(error: serde_json::Error) -> (r: DispatchError) {
        DispatchError::Serialization(error)
    }
}

impl FromSpecImpl<serde_json::Error> for DispatchError {
    open spec fn obeys_from_spec() -> bool {
        true
    }

    open spec fn from_spec(error: serde_json::Error) -> DispatchError {
        DispatchError::Serialization(error)
    }
}

} // verus!
