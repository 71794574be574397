//! The application's top-level error, delegating to each feature's error.

use crate::features::health::error::{health_failure_text, HealthError};
use crate::features::ingress::error::IngressError;
use vstd::prelude::*;

verus! {

/// The single top-level error type of the application.
#[derive(Debug)]
pub enum AppError {
    Health(HealthError),
    Ingress(IngressError),
}

impl AppError {
    /// The HTTP status and the client-facing message, as the underlying
    /// feature error reports them.
    pub fn response_parts(&self) -> (r: (u16, String))
        ensures
            match self {
                AppError::Health(_) => r.0 == 503 && r.1@ == health_failure_text(),
                AppError::Ingress(e) => r.0 == e.status_spec() && r.1@ == e.public_message_spec(),
            },
    {
        match self {
            AppError::Health(e) => e.response_parts(),
            AppError::Ingress(e) => e.response_parts(),
        }
    }
}

impl From<HealthError> for AppError {
    fn from(e: HealthError) -> (r: AppError) {
        AppError::Health(e)
    }
}

impl vstd::std_specs::convert::FromSpecImpl<HealthError> for AppError {
    open spec fn obeys_from_spec() -> bool {
        true
    }

    open spec fn from_spec(e: HealthError) -> AppError {
        AppError::Health(e)
    }
}

impl From<IngressError> for AppError {
    fn from(e: IngressError) -> (r: AppError) {
        AppError::Ingress(e)
    }
}

impl vstd::std_specs::convert::FromSpecImpl<IngressError> for AppError {
    open spec fn obeys_from_spec() -> bool {
        true
    }

    open spec fn from_spec(e: IngressError) -> AppError {
        AppError::Ingress(e)
    }
}

} // verus!
