//! Authentication decisions.

use super::config::AuthConfig;
use super::mockdata::{mock_api_keys, mock_key_lookup};
use super::models::{ApiKeyInfo, AuthContext};
use super::repository::{AuthRepository, MockAuthRepository};
use vstd::prelude::*;

verus! {

/// The client a key authenticates as: the client of the key's record when
/// the key is stored and active, and nobody otherwise.
pub open spec fn admitted_client(api_key: Seq<char>) -> Option<Seq<char>> {
    match mock_key_lookup(api_key) {
        Some(info) => if info.is_active {
            Some(info.client_id)
        } else {
            None
        },
        None => None,
    }
}

/// A key admits exactly the client of its own stored record, and only while
/// that record is active: every stored active key admits its record's
/// client, and an unknown or inactive key admits nobody.
pub proof fn lemma_key_admits_its_own_client(api_key: Seq<char>)
    ensures
        mock_api_keys().contains_key(api_key) && mock_api_keys()[api_key].is_active
            ==> admitted_client(api_key) == Some(mock_api_keys()[api_key].client_id),
        !(mock_api_keys().contains_key(api_key) && mock_api_keys()[api_key].is_active)
            ==> admitted_client(api_key) is None,
{
}

/// The client of an optional authentication context.
pub open spec fn context_client(c: Option<AuthContext>) -> Option<Seq<char>> {
    match c {
        Some(ctx) => Some(ctx.client_id@),
        None => None,
    }
}

/// Authentication service.
pub struct AuthService {
    repository: MockAuthRepository,
}

impl Default for AuthService {
    fn default() -> (s: Self)
        ensures
            s == AuthService::new_spec(),
    {
        AuthService { repository: MockAuthRepository }
    }
}

impl AuthService {
    /// The service over the development key store.
    pub closed spec fn new_spec() -> AuthService {
        AuthService { repository: MockAuthRepository }
    }

    /// The service over the development key store.
    pub fn new() -> (s: AuthService)
        ensures
            s == AuthService::new_spec(),
    {
        AuthService { repository: MockAuthRepository }
    }

    /// Validates an API key: a stored, active key yields the context of its
    /// client; an unknown or inactive key yields nothing.
    pub fn validate_api_key(&self, api_key: &str) -> (r: Option<AuthContext>)
        ensures
            context_client(r) == admitted_client(api_key@),
    {
        match self.repository.find_api_key_by_hash(api_key) {
            Some(info) => {
                if !info.is_active {
                    return None;
                }
                Some(AuthContext { client_id: info.client_id })
            },
            None => None,
        }
    }

    /// The context injected in development mode: the configured development
    /// client.
    pub fn create_dev_context(&self, config: &AuthConfig) -> (c: AuthContext)
        ensures
            c.client_id@ == config.dev_client_id@,
    {
        AuthContext { client_id: config.get_dev_client_id().to_string() }
    }

    /// The key record stored under `key_hash`, if any.
    pub fn get_api_key_info(&self, key_hash: &str) -> (r: Option<ApiKeyInfo>)
        ensures
            match r {
                Some(k) => mock_key_lookup(key_hash@) == Some(k@),
                None => mock_key_lookup(key_hash@) is None,
            },
    {
        self.repository.find_api_key_by_hash(key_hash)
    }
}

} // verus!
