//! What a dispatch is given: one inbound request.

use vstd::prelude::*;

verus! {

/// An inbound HTTP request. Dispatch reads the method and the raw path and nothing else; the
/// body belongs to the handler.
#[derive(Clone, Debug, PartialEq, Eq)]
pub struct IncomingRequest {
    /// The method as sent, such as `POST`. Case counts.
    pub method: String,
    /// The raw path as sent, without any normalisation.
    pub path: String,
    /// The request's body.
    pub body: Vec<u8>,
}

impl IncomingRequest {
    /// A request with the given method, path and body.
    pub fn new(method: &str, path: &str, body: Vec<u8>) -> (r: IncomingRequest)
        ensures
            r.method@ == method@,
            r.path@ == path@,
            r.body@ == body@,
    {
        IncomingRequest { method: method.to_owned(), path: path.to_owned(), body }
    }
}

} // verus!
