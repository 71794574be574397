use vstd::prelude::*;

verus! {

/// Errors of LLM execution.
#[derive(Debug)]
pub enum ExecutorError {
    /// Network connectivity failed.
    NetworkError(String),
    /// The vendor did not answer within this many milliseconds.
    TimeoutError(u64),
    /// The vendor's rate limit was hit.
    RateLimitExceeded(String),
    /// The vendor call failed for another reason.
    ApiCallFailed(String),
    /// The vendor refused the credentials.
    AuthenticationFailed(String),
    /// The request payload cannot be executed.
    InvalidPayload(String),
    /// No vendor with this id is registered.
    UnsupportedVendor(String),
    /// The vendor (first) does not serve the model (second).
    UnsupportedModel(String, String),
    /// No vendor is configured at all.
    NoVendorsConfigured,
}

/// An executor error with its texts taken as character sequences.
pub enum ExecutorErrorView {
    NetworkError(Seq<char>),
    TimeoutError(u64),
    RateLimitExceeded(Seq<char>),
    ApiCallFailed(Seq<char>),
    AuthenticationFailed(Seq<char>),
    InvalidPayload(Seq<char>),
    UnsupportedVendor(Seq<char>),
    UnsupportedModel(Seq<char>, Seq<char>),
    NoVendorsConfigured,
}

impl View for ExecutorError {
    type V = ExecutorErrorView;

    open spec fn view(&self) -> ExecutorErrorView {
        match self {
            ExecutorError::NetworkError(s) => ExecutorErrorView::NetworkError(s@),
            ExecutorError::TimeoutError(ms) => ExecutorErrorView::TimeoutError(*ms),
            ExecutorError::RateLimitExceeded(s) => ExecutorErrorView::RateLimitExceeded(s@),
            ExecutorError::ApiCallFailed(s) => ExecutorErrorView::ApiCallFailed(s@),
            ExecutorError::AuthenticationFailed(s) => ExecutorErrorView::AuthenticationFailed(s@),
            ExecutorError::InvalidPayload(s) => ExecutorErrorView::InvalidPayload(s@),
            ExecutorError::UnsupportedVendor(s) => ExecutorErrorView::UnsupportedVendor(s@),
            ExecutorError::UnsupportedModel(v, m) => ExecutorErrorView::UnsupportedModel(v@, m@),
            ExecutorError::NoVendorsConfigured => ExecutorErrorView::NoVendorsConfigured,
        }
    }
}

impl ExecutorErrorView {
    /// Transient failures that another attempt may cure: network trouble,
    /// timeouts, rate limits and generic API failures.
    pub open spec fn is_retryable(self) -> bool {
        ||| self is NetworkError
        ||| self is TimeoutError
        ||| self is RateLimitExceeded
        ||| self is ApiCallFailed
    }
}

impl Clone for ExecutorError {
    fn clone(&self) -> (r: Self)
        ensures
            r == *self,
    {
        match self {
            ExecutorError::NetworkError(s) => ExecutorError::NetworkError(s.clone()),
            ExecutorError::TimeoutError(ms) => ExecutorError::TimeoutError(*ms),
            ExecutorError::RateLimitExceeded(s) => ExecutorError::RateLimitExceeded(s.clone()),
            ExecutorError::ApiCallFailed(s) => ExecutorError::ApiCallFailed(s.clone()),
            ExecutorError::AuthenticationFailed(s) => ExecutorError::AuthenticationFailed(s.clone()),
            ExecutorError::InvalidPayload(s) => ExecutorError::InvalidPayload(s.clone()),
            ExecutorError::UnsupportedVendor(s) => ExecutorError::UnsupportedVendor(s.clone()),
            ExecutorError::UnsupportedModel(v, m) => ExecutorError::UnsupportedModel(
                v.clone(),
                m.clone(),
            ),
            ExecutorError::NoVendorsConfigured => ExecutorError::NoVendorsConfigured,
        }
    }
}

impl ExecutorError {
    /// Whether another attempt may cure this error.
    pub fn is_retryable(&self) -> (r: bool)
        ensures
            r == self@.is_retryable(),
    {
        match self {
            ExecutorError::NetworkError(_) => true,
            ExecutorError::TimeoutError(_) => true,
            ExecutorError::RateLimitExceeded(_) => true,
            ExecutorError::ApiCallFailed(_) => true,
            _ => false,
        }
    }
}

} // verus!
