//! The authentication decision for protected routes: which requests pass,
//! and as whom.

use crate::features::auth::config::AuthConfig;
use crate::features::auth::models::AuthContext;
use crate::features::auth::service::{admitted_client, context_client, AuthService};
use vstd::prelude::*;

verus! {

/// Status of a request refused for lack of valid credentials.
pub const UNAUTHORIZED: u16 = 401;

/// The client a request is admitted as, if it is: the development client in
/// development mode whatever the request carries; otherwise the client of the
/// `X-API-Key` header's key when that key is stored and active.
pub open spec fn admitted_as(config: AuthConfig, api_key: Option<Seq<char>>) -> Option<Seq<char>> {
    if config.development_mode {
        Some(config.dev_client_id@)
    } else {
        match api_key {
            Some(k) => admitted_client(k),
            None => None,
        }
    }
}

/// In development mode every request is admitted as the configured
/// development client, whatever `X-API-Key` it carries or lacks; otherwise a
/// request without the header is refused and one with it is admitted as
/// exactly the client that its key admits.
pub proof fn lemma_development_mode_admits_dev_client(
    config: AuthConfig,
    api_key: Option<Seq<char>>,
)
    ensures
        config.development_mode ==> admitted_as(config, api_key) == Some(config.dev_client_id@),
        !config.development_mode && api_key is None ==> admitted_as(config, api_key) is None,
        !config.development_mode && api_key is Some ==> admitted_as(config, api_key)
            == admitted_client(api_key->0),
{
}

/// The header value as text, if present.
pub open spec fn header_view(h: Option<&str>) -> Option<Seq<char>> {
    match h {
        Some(s) => Some(s@),
        None => None,
    }
}

/// Decides on a request to a protected route, given the value of its
/// `X-API-Key` header: the authentication context to inject, or 401.
pub fn authenticate(config: &AuthConfig, api_key: Option<&str>) -> (r: Result<AuthContext, u16>)
    ensures
        match admitted_as(*config, header_view(api_key)) {
            Some(client) => r matches Ok(c) && c.client_id@ == client,
            None => r == Err::<AuthContext, u16>(UNAUTHORIZED),
        },
{
    let service = AuthService::new();
    if config.is_development_mode() {
        return Ok(service.create_dev_context(config));
    }
    match api_key {
        None => Err(UNAUTHORIZED),
        Some(key) => match validate_api_key(key) {
            Some(c) => Ok(c),
            None => Err(UNAUTHORIZED),
        },
    }
}

/// Validates an API key with the authentication service.
pub fn validate_api_key(api_key: &str) -> (r: Option<AuthContext>)
    ensures
        context_client(r) == admitted_client(api_key@),
{
    let service = AuthService::new();
    service.validate_api_key(api_key)
}

} // verus!
