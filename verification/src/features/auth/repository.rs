//! Access to the key store.

use super::error::AuthError;
use super::mockdata::{mock_key_lookup, MockAuthDataProvider};
use super::models::ApiKeyInfo;
use vstd::prelude::*;

verus! {

/// Data access of authentication.
pub trait AuthRepository {
    /// The key record stored under `key_hash`, if any.
    fn find_api_key_by_hash(&self, key_hash: &str) -> Option<ApiKeyInfo>;

    /// Records that the key `key_id` was just used.
    fn update_last_used(&self, key_id: &str) -> Result<(), AuthError>;
}

/// The key store of development and testing: the hard-coded keys.
pub struct MockAuthRepository;

impl MockAuthRepository {
    /// The repository.
    pub fn new() -> (r: MockAuthRepository) {
        MockAuthRepository
    }
}

impl AuthRepository for MockAuthRepository {
    /// Looks the key up among the hard-coded keys.
    fn find_api_key_by_hash(&self, key_hash: &str) -> (r: Option<ApiKeyInfo>)
        ensures
            match r {
                Some(k) => mock_key_lookup(key_hash@) == Some(k@),
                None => mock_key_lookup(key_hash@) is None,
            },
    {
        MockAuthDataProvider::get_api_key_by_hash(key_hash)
    }

    /// Nothing is stored; the update always succeeds.
    fn update_last_used(&self, key_id: &str) -> (r: Result<(), AuthError>)
        ensures
            r is Ok,
    {
        Ok(())
    }
}

/// The repository that authentication uses.
pub fn create_auth_repository() -> (r: MockAuthRepository) {
    MockAuthRepository::new()
}

} // verus!
