//! Turning what a handler returned into the response of the dispatch.

use crate::error::DispatchError;
use crate::status::StatusCode;
use serde::Serialize;
use vstd::prelude::*;

verus! {

/// What a handler returns: a status with a payload, or the error it failed with.
pub type HandlerResult<T> = Result<(StatusCode, T), DispatchError>;

/// What a dispatch returns: a status with the body's text, or the error that ended it.
pub type DispatchResult = Result<(StatusCode, String), DispatchError>;

/// The JSON text of `payload`: calls `serde_json::to_string`, which fails where the payload's
/// own `Serialize` impl fails or where it holds a map whose keys are not strings. The text
/// depends on that impl, so nothing is claimed of it.
#[verifier::external_body]
fn to_json<T: Serialize>(payload: &T) -> (encoded: Result<String, serde_json::Error>) {
    serde_json::to_string(payload)
}

/// Whether `encoded` is what the JSON encoder returned for `payload`. Only a call of the
/// encoder on `payload` shows this of a value; two calls on one payload are not taken to
/// agree.
pub closed spec fn encodes<T: Serialize>(
    payload: T,
    encoded: Result<String, serde_json::Error>,
) -> bool {
    call_ensures(to_json::<T>, (&payload,), encoded)
}

/// The response to a handler's success with `status`, given what encoding its payload gave:
/// the text under the handler's status, or the encoder's failure as an error of its own kind.
pub open spec fn response_to_success(
    status: StatusCode,
    encoded: Result<String, serde_json::Error>,
) -> DispatchResult {
    match encoded {
        Ok(body) => Ok((status, body)),
        Err(error) => Err(DispatchError::Serialization(error)),
    }
}

/// Whether `response` answers `outcome`. A handler's success is answered by the response to
/// its status and to what the encoder returned for its payload; a handler's error is answered
/// by that error.
pub open spec fn answers<T: Serialize>(outcome: HandlerResult<T>, response: DispatchResult) -> bool {
    match outcome {
        Ok((status, payload)) => exists|encoded: Result<String, serde_json::Error>|
            #![trigger encodes(payload, encoded)]
            encodes(payload, encoded) && response == response_to_success(status, encoded),
        Err(error) => response == Err::<(StatusCode, String), DispatchError>(error),
    }
}

/// Pairs the handler's status with the encoded body, or reports that encoding failed.
pub fn respond(status: StatusCode, encoded: Result<String, serde_json::Error>) -> (r:
    DispatchResult)
    ensures
        r == response_to_success(status, encoded),
{
    match encoded {
        Ok(body) => Ok((status, body)),
        Err(error) => Err(DispatchError::from(error)),
    }
}

/// Encodes a handler's payload as JSON and keeps its status; hands a handler's error on as it
/// is.
pub fn json_response<T: Serialize>(outcome: HandlerResult<T>) -> (r: DispatchResult)
    ensures
        answers(outcome, r),
{
    match outcome {
        Ok((status, payload)) => {
            let encoded = to_json(&payload);
            assert(encodes(payload, encoded));
            respond(status, encoded)
        },
        Err(error) => Err(error),
    }
}

/// A handler's success is answered under the handler's own status, with the text that the
/// encoder returned for the payload as the whole body, or, where the encoder returned an
/// error, by that error as a serialization error and with no body.
pub proof fn lemma_answer_to_success<T: Serialize>(
    status: StatusCode,
    payload: T,
    response: DispatchResult,
)
    requires
        answers(Ok((status, payload)), response),
    ensures
        match response {
            Ok((sent, body)) => sent == status && encodes(payload, Ok(body)),
            Err(DispatchError::Serialization(error)) => encodes(payload, Err(error)),
            Err(_) => false,
        },
{
}

/// A handler's error is answered by that same error, with its status and message as they were,
/// and by nothing else.
pub proof fn lemma_answer_to_failure<T: Serialize>(error: DispatchError, response: DispatchResult)
    ensures
        answers(Err::<(StatusCode, T), DispatchError>(error), response) <==> response == Err::<
            (StatusCode, String),
            DispatchError,
        >(error),
{
}

/// Dispatching again changes nothing: two responses that answer one outcome of the handler are
/// the same response, where the encoder has one result for the payload. A payload whose text
/// its value does not fix, such as a hash map of two keys, is left out by that condition.
pub proof fn lemma_same_outcome_same_response<T: Serialize>(
    outcome: HandlerResult<T>,
    first: DispatchResult,
    second: DispatchResult,
)
    requires
        answers(outcome, first),
        answers(outcome, second),
        outcome matches Ok((_, payload)) ==> forall|
            one: Result<String, serde_json::Error>,
            other: Result<String, serde_json::Error>,
        |
            encodes(payload, one) && encodes(payload, other) ==> one == other,
    ensures
        first == second,
{
}

} // verus!
