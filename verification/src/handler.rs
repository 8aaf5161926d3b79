//! The dispatch itself: route the request, invoke the handler, answer in JSON.

use crate::error::DispatchError;
use crate::request::IncomingRequest;
use crate::responder::{answers, json_response, DispatchResult, HandlerResult};
use crate::router::{route, route_of, Route};
use crate::status::StatusCode;
use serde::Serialize;
use vstd::prelude::*;

verus! {

/// Invokes `handler` on `event`, once, and answers with the JSON response to what it returned.
pub fn json_body<T, F>(event: IncomingRequest, handler: F) -> (r: DispatchResult) where
    T: Serialize,
    F: FnOnce(IncomingRequest) -> HandlerResult<T>,

    requires
        handler.requires((event,)),
    ensures
        exists|outcome: HandlerResult<T>| #[trigger]
            handler.ensures((event,), outcome) && answers(outcome, r),
{
    let outcome = handler(event);
    json_response(outcome)
}

/// Dispatches one request: a `POST` to `/license/create` goes to `create`, a `POST` to
/// `/license/verify` goes to `verify`, and the handler's result is answered in JSON. Any other
/// request ends in `DispatchError::NotFound`, and neither handler is invoked.
pub fn entry<A, B, C, V>(event: IncomingRequest, create: C, verify: V) -> (r: DispatchResult) where
    A: Serialize,
    B: Serialize,
    C: FnOnce(IncomingRequest) -> HandlerResult<A>,
    V: FnOnce(IncomingRequest) -> HandlerResult<B>,

    requires
        route_of(event.method@, event.path@) == Some(Route::Create) ==> create.requires((event,)),
        route_of(event.method@, event.path@) == Some(Route::Verify) ==> verify.requires((event,)),
    ensures
        match route_of(event.method@, event.path@) {
            Some(Route::Create) => exists|outcome: HandlerResult<A>| #[trigger]
                create.ensures((event,), outcome) && answers(outcome, r),
            Some(Route::Verify) => exists|outcome: HandlerResult<B>| #[trigger]
                verify.ensures((event,), outcome) && answers(outcome, r),
            None => r == Err::<(StatusCode, String), DispatchError>(
                DispatchError::NotFound,
            ),
        },
{
    match route(&event) {
        Ok(Route::Create) => json_body(event, create),
        Ok(Route::Verify) => json_body(event, verify),
        Err(error) => Err(error),
    }
}

} // verus!
