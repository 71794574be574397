use vstd::prelude::*;

verus! {

/// Correlation identifiers of one request, carried into every downstream
/// call that serves it.
#[derive(Debug)]
pub struct RequestContext {
    /// Identifier the gateway assigned to the request.
    pub request_id: String,
    /// Identifier the client sent along, if any.
    pub client_correlation_id: Option<String>,
}

impl RequestContext {
    /// A request context.
    pub fn new(request_id: String, client_correlation_id: Option<String>) -> (c: RequestContext)
        ensures
            c.request_id == request_id,
            c.client_correlation_id == client_correlation_id,
    {
        RequestContext { request_id, client_correlation_id }
    }
}

} // verus!
