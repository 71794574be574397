use crate::features::executor::error::ExecutorError;
use vstd::prelude::*;
use vstd::string::*;

verus! {

/// Errors of ingress request processing.
#[derive(Debug)]
pub enum IngressError {
    /// The request is malformed (400).
    InvalidRequest(String),
    /// Authentication is missing (401).
    AuthenticationRequired,
    /// Permissions are insufficient (403).
    AuthorizationFailed,
    /// Retrieving the conversation context failed (500).
    ContextRetrievalFailed,
    /// Orchestrating the request failed (500).
    RequestOrchestrationFailed,
    /// Aggregating the response failed (500).
    ResponseAggregationFailed,
    /// Updating the conversation context failed (500).
    ContextUpdateFailed,
    /// The LLM execution failed (500).
    ExecutionFailed(ExecutorError),
}

/// The text returned to clients for server-side failures.
pub open spec fn internal_error_text() -> Seq<char> {
    "An internal error occurred while processing your request."@
}

impl IngressError {
    /// The HTTP status of this error: 400 for invalid requests, 401 and 403
    /// for missing authentication and permission, 500 for server-side
    /// failures.
    pub open spec fn status_spec(&self) -> u16 {
        match self {
            IngressError::InvalidRequest(_) => 400,
            IngressError::AuthenticationRequired => 401,
            IngressError::AuthorizationFailed => 403,
            _ => 500,
        }
    }

    /// The message returned to clients: the reason for invalid requests, a
    /// fixed text for authentication and permission, and a generic text for
    /// server-side failures, which reveals nothing of their cause.
    pub open spec fn public_message_spec(&self) -> Seq<char> {
        match self {
            IngressError::InvalidRequest(m) => m@,
            IngressError::AuthenticationRequired => "Authentication is required to access this resource."@,
            IngressError::AuthorizationFailed => "You do not have permission to perform this operation."@,
            _ => internal_error_text(),
        }
    }

    /// The HTTP status and the client-facing message of this error.
    pub fn response_parts(&self) -> (r: (u16, String))
        ensures
            r.0 == self.status_spec(),
            r.1@ == self.public_message_spec(),
    {
        match self {
            IngressError::InvalidRequest(m) => (400, m.clone()),
            IngressError::AuthenticationRequired => {
                proof { reveal_strlit("Authentication is required to access this resource."); }
                (401, String::from_str("Authentication is required to access this resource."))
            },
            IngressError::AuthorizationFailed => {
                proof { reveal_strlit("You do not have permission to perform this operation."); }
                (403, String::from_str("You do not have permission to perform this operation."))
            },
            _ => {
                proof { reveal_strlit("An internal error occurred while processing your request."); }
                (500, String::from_str("An internal error occurred while processing your request."))
            },
        }
    }
}

/// Client errors keep their 4xx status (a malformed request 400 with its
/// own reason, missing authentication 401, missing permission 403), and
/// every server-side failure is 500 with one and the same message, so that
/// clients learn nothing of its cause.
pub proof fn lemma_server_failures_reveal_nothing(reason: String, e1: IngressError, e2: IngressError)
    requires
        !(e1 is InvalidRequest || e1 is AuthenticationRequired || e1 is AuthorizationFailed),
        !(e2 is InvalidRequest || e2 is AuthenticationRequired || e2 is AuthorizationFailed),
    ensures
        IngressError::InvalidRequest(reason).status_spec() == 400,
        IngressError::InvalidRequest(reason).public_message_spec() == reason@,
        IngressError::AuthenticationRequired.status_spec() == 401,
        IngressError::AuthorizationFailed.status_spec() == 403,
        e1.status_spec() == 500 && e2.status_spec() == 500,
        e1.public_message_spec() == e2.public_message_spec(),
{
}

impl From<ExecutorError> for IngressError {
    fn from(e: ExecutorError) -> (r: IngressError) {
        IngressError::ExecutionFailed(e)
    }
}

impl vstd::std_specs::convert::FromSpecImpl<ExecutorError> for IngressError {
    open spec fn obeys_from_spec() -> bool {
        true
    }

    open spec fn from_spec(e: ExecutorError) -> IngressError {
        IngressError::ExecutionFailed(e)
    }
}

} // verus!
