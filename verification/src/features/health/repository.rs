use super::error::HealthError;
use vstd::prelude::*;

verus! {

/// The system status as the repository reports it.
#[derive(Debug)]
pub struct SystemStatus {
    pub is_healthy: bool,
}

/// Access to system status data. The status is simulated and always
/// healthy.
pub struct HealthRepository;

impl HealthRepository {
    /// The repository.
    pub fn new() -> (r: HealthRepository) {
        HealthRepository
    }

    /// The current system status: always healthy.
    pub fn get_system_status(&self) -> (r: Result<SystemStatus, HealthError>)
        ensures
            r matches Ok(s) && s.is_healthy,
    {
        Ok(SystemStatus { is_healthy: true })
    }
}

} // verus!
