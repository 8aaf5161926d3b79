//! The routing table: which handler answers which method and path.

use crate::error::DispatchError;
use crate::request::IncomingRequest;
use vstd::prelude::*;

verus! {

/// A handler that this service registers.
#[derive(Clone, Copy, Debug, PartialEq, Eq, Hash, Structural)]
pub enum Route {
    /// Issues a license.
    Create,
    /// Verifies a license.
    Verify,
}

/// The method of every registered route.
pub open spec fn registered_method() -> Seq<char> {
    "POST"@
}

/// The path on which licenses are created.
pub open spec fn create_path() -> Seq<char> {
    "/license/create"@
}

/// The path on which licenses are verified.
pub open spec fn verify_path() -> Seq<char> {
    "/license/verify"@
}

/// The route registered for exactly this method and exactly this path, if there is one.
pub open spec fn route_of(method: Seq<char>, path: Seq<char>) -> Option<Route> {
    if method == registered_method() && path == create_path() {
        Some(Route::Create)
    } else if method == registered_method() && path == verify_path() {
        Some(Route::Verify)
    } else {
        None
    }
}

/// Whether `text` is, character for character, `literal`.
fn is_exactly(text: &str, literal: &str) -> (r: bool)
    ensures
        r == (text@ == literal@),
{
    text.to_owned() == literal.to_owned()
}

impl Route {
    /// Looks up the route for a method and a raw path.
    pub fn select(method: &str, path: &str) -> (r: Option<Route>)
        ensures
            r == route_of(method@, path@),
    {
        if !is_exactly(method, "POST") {
            None
        } else if is_exactly(path, "/license/create") {
            Some(Route::Create)
        } else if is_exactly(path, "/license/verify") {
            Some(Route::Verify)
        } else {
            None
        }
    }
}

/// Decides what a request leads to: the handler to invoke, or the error that ends the dispatch.
pub fn route(request: &IncomingRequest) -> (r: Result<Route, DispatchError>)
    ensures
        r == match route_of(request.method@, request.path@) {
            Some(found) => Ok::<Route, DispatchError>(found),
            None => Err(DispatchError::NotFound),
        },
{
    match Route::select(request.method.as_str(), request.path.as_str()) {
        Some(found) => Ok(found),
        None => Err(DispatchError::NotFound),
    }
}

/// The two registered paths are different paths.
pub proof fn lemma_paths_differ()
    ensures
        create_path() != verify_path(),
{
    reveal_strlit("/license/create");
    reveal_strlit("/license/verify");
    assert(create_path()[9] == 'c');
    assert(verify_path()[9] == 'v');
}

/// The routing table, entry by entry: a request reaches the create handler exactly when it is a
/// `POST` to `/license/create`, the verify handler exactly when it is a `POST` to
/// `/license/verify`, and no handler in every other case.
pub proof fn lemma_routing_table(method: Seq<char>, path: Seq<char>)
    ensures
        route_of(method, path) == Some(Route::Create) <==> method == "POST"@ && path
            == "/license/create"@,
        route_of(method, path) == Some(Route::Verify) <==> method == "POST"@ && path
            == "/license/verify"@,
        route_of(method, path) is None <==> !(method == "POST"@ && (path == "/license/create"@
            || path == "/license/verify"@)),
{
    lemma_paths_differ();
}

} // verus!
