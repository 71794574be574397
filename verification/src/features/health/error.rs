use vstd::prelude::*;
use vstd::string::*;

verus! {

/// Errors of health checks; all are server-side.
#[derive(Debug)]
pub enum HealthError {
    /// The basic system status check could not be completed.
    SystemStatusCheckFailed,
    /// An external dependency could not be validated.
    DependencyValidationFailed,
    /// System resources could not be monitored.
    ResourceMonitoringFailed,
    /// Health results could not be combined.
    HealthAggregationFailed,
}

/// The message returned to clients for every health failure.
pub open spec fn health_failure_text() -> Seq<char> {
    "Health check failed - service temporarily unavailable."@
}

impl HealthError {
    /// Every health failure is reported as 503 Service Unavailable with the
    /// same message.
    pub fn response_parts(&self) -> (r: (u16, String))
        ensures
            r.0 == 503,
            r.1@ == health_failure_text(),
    {
        proof { reveal_strlit("Health check failed - service temporarily unavailable."); }
        (503, String::from_str("Health check failed - service temporarily unavailable."))
    }

    /// The error's description.
    pub open spec fn description_spec(&self) -> Seq<char> {
        match self {
            HealthError::SystemStatusCheckFailed => "System status check failed"@,
            HealthError::DependencyValidationFailed => "Dependency validation failed"@,
            HealthError::ResourceMonitoringFailed => "Resource monitoring failed"@,
            HealthError::HealthAggregationFailed => "Health aggregation failed"@,
        }
    }

    /// The error's description, as its `Display` shows it.
    pub fn description(&self) -> (r: String)
        ensures
            r@ == self.description_spec(),
    {
        match self {
            HealthError::SystemStatusCheckFailed => {
                proof { reveal_strlit("System status check failed"); }
                String::from_str("System status check failed")
            },
            HealthError::DependencyValidationFailed => {
                proof { reveal_strlit("Dependency validation failed"); }
                String::from_str("Dependency validation failed")
            },
            HealthError::ResourceMonitoringFailed => {
                proof { reveal_strlit("Resource monitoring failed"); }
                String::from_str("Resource monitoring failed")
            },
            HealthError::HealthAggregationFailed => {
                proof { reveal_strlit("Health aggregation failed"); }
                String::from_str("Health aggregation failed")
            },
        }
    }
}

} // verus!
