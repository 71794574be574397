use vstd::prelude::*;
use vstd::string::*;

verus! {

/// Errors of authentication.
#[derive(Debug)]
pub enum AuthError {
    /// The API key is unknown.
    ApiKeyValidationFailed,
    /// The API key is inactive.
    ApiKeyInactive,
    /// The key store failed.
    RepositoryOperationFailed(String),
}

/// Rejected keys, unknown or inactive alike, get 401 and the same message,
/// so that a client cannot tell which; a key store failure gets 500 with a
/// message that does not depend on the failure's detail.
pub proof fn lemma_auth_errors_reveal_nothing(detail1: String, detail2: String)
    ensures
        AuthError::ApiKeyValidationFailed.status_spec() == 401,
        AuthError::ApiKeyInactive.status_spec() == 401,
        AuthError::ApiKeyValidationFailed.public_message_spec()
            == AuthError::ApiKeyInactive.public_message_spec(),
        AuthError::RepositoryOperationFailed(detail1).status_spec() == 500,
        AuthError::RepositoryOperationFailed(detail1).public_message_spec()
            == AuthError::RepositoryOperationFailed(detail2).public_message_spec(),
        AuthError::RepositoryOperationFailed(detail1).public_message_spec()
            != AuthError::ApiKeyInactive.public_message_spec(),
{
    reveal_strlit("An internal error occurred");
    reveal_strlit("Authentication failed");
    assert("An internal error occurred"@[1] != "Authentication failed"@[1]);
}

impl AuthError {
    /// 401 for rejected keys, 500 for key store failures.
    pub open spec fn status_spec(&self) -> u16 {
        match self {
            AuthError::RepositoryOperationFailed(_) => 500,
            _ => 401,
        }
    }

    /// The client-facing message, which reveals nothing of a store failure.
    pub open spec fn public_message_spec(&self) -> Seq<char> {
        match self {
            AuthError::RepositoryOperationFailed(_) => "An internal error occurred"@,
            _ => "Authentication failed"@,
        }
    }

    /// The HTTP status and the client-facing message of this error.
    pub fn response_parts(&self) -> (r: (u16, String))
        ensures
            r.0 == self.status_spec(),
            r.1@ == self.public_message_spec(),
    {
        match self {
            AuthError::RepositoryOperationFailed(_) => {
                proof { reveal_strlit("An internal error occurred"); }
                (500, String::from_str("An internal error occurred"))
            },
            _ => {
                proof { reveal_strlit("Authentication failed"); }
                (401, String::from_str("Authentication failed"))
            },
        }
    }

    /// The error's description.
    pub open spec fn description_spec(&self) -> Seq<char> {
        match self {
            AuthError::ApiKeyValidationFailed => "API key validation failed"@,
            AuthError::ApiKeyInactive => "API key is inactive"@,
            AuthError::RepositoryOperationFailed(m) => "Repository operation failed: "@ + m@,
        }
    }

    /// The error's description, as its `Display` shows it.
    pub fn description(&self) -> (r: String)
        ensures
            r@ == self.description_spec(),
    {
        match self {
            AuthError::ApiKeyValidationFailed => {
                proof { reveal_strlit("API key validation failed"); }
                String::from_str("API key validation failed")
            },
            AuthError::ApiKeyInactive => {
                proof { reveal_strlit("API key is inactive"); }
                String::from_str("API key is inactive")
            },
            AuthError::RepositoryOperationFailed(m) => {
                proof { reveal_strlit("Repository operation failed: "); }
                let mut s = String::from_str("Repository operation failed: ");
                s.append(m.as_str());
                s
            },
        }
    }
}

} // verus!
