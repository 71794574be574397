use gateway::diagnostics::LogLevel;
use gateway::features::auth::config::AuthConfig;
use gateway::features::auth::error::AuthError;
use gateway::features::auth::mockdata::MockAuthDataProvider;
use gateway::features::auth::repository::{create_auth_repository, AuthRepository};
use gateway::features::auth::service::AuthService;
use gateway::middleware::auth::{authenticate, validate_api_key, UNAUTHORIZED};

#[test]
fn test_default_config() {
    let config = AuthConfig::default();
    assert!(!config.development_mode);
    assert_eq!(config.dev_client_id, "dev-client-123");
    assert_eq!(config.slow_operation_threshold_ms, 10);
}

#[test]
fn test_development_mode_detection() {
    let config = AuthConfig {
        development_mode: true,
        dev_client_id: "test-client".to_string(),
        slow_operation_threshold_ms: 20,
    };
    assert!(config.is_development_mode());
    assert_eq!(config.get_dev_client_id(), "test-client");
    assert_eq!(config.get_slow_threshold_ms(), 20);
}

#[test]
fn validate_api_key_none_when_invalid() {
    let ctx = validate_api_key("not-a-real-key");
    assert!(ctx.is_none());
}

#[test]
fn validate_api_key_some_when_valid() {
    let ctx = validate_api_key("test-api-key-123");
    assert!(ctx.is_some());
}

#[test]
fn auth_config_from_environment_values() {
    let config = AuthConfig::from_env_values(
        Some("true".to_string()),
        Some("my-client".to_string()),
        Some("25".to_string()),
    );
    assert!(config.development_mode);
    assert_eq!(config.dev_client_id, "my-client");
    assert_eq!(config.slow_operation_threshold_ms, 25);

    let config = AuthConfig::from_env_values(Some("TRUE".to_string()), None, Some("x".to_string()));
    assert!(!config.development_mode);
    assert_eq!(config.dev_client_id, "dev-client-123");
    assert_eq!(config.slow_operation_threshold_ms, 10);
}

#[test]
fn auth_log_lines_follow_mode() {
    let prod = AuthConfig::default().log_warnings();
    assert_eq!(prod.len(), 1);
    assert_eq!(prod[0].level, LogLevel::Info);
    assert_eq!(prod[0].message, "✅ Authentication is ENABLED (production mode)");

    let dev = AuthConfig::from_env_values(Some("true".to_string()), None, None).log_warnings();
    assert_eq!(dev.len(), 4);
    assert!(dev.iter().all(|l| l.level == LogLevel::Warn));
    assert_eq!(dev[3].message, "🚨 Mock client ID: dev-client-123");
}

#[test]
fn key_store_lookup() {
    let info = MockAuthDataProvider::get_api_key_by_hash("dev-api-key-456").expect("stored key");
    assert_eq!(info.id, "key_002");
    assert_eq!(info.client_id, "dev-client-789");
    assert_eq!(info.last_used_at, None);
    assert!(info.is_active);
    assert!(MockAuthDataProvider::get_api_key_by_hash("nope").is_none());
    assert_eq!(MockAuthDataProvider::get_mock_api_keys().len(), 2);
    assert_eq!(MockAuthDataProvider::get_mock_client_id(), "test-client-456");
}

#[test]
fn repository_finds_and_updates() {
    let repo = create_auth_repository();
    let info = repo.find_api_key_by_hash("test-api-key-123").expect("stored key");
    assert_eq!(info.name, Some("Test API Key".to_string()));
    assert!(repo.update_last_used("key_001").is_ok());
}

#[test]
fn service_admits_active_keys_as_their_client() {
    let service = AuthService::new();
    let ctx = service.validate_api_key("test-api-key-123").expect("admitted");
    assert_eq!(ctx.client_id, "test-client-456");
    assert!(service.validate_api_key("TEST-API-KEY-123").is_none());
    let info = service.get_api_key_info("test-api-key-123").expect("stored");
    assert_eq!(info.created_at, "2025-09-04T00:00:00Z");
}

#[test]
fn dev_context_uses_configured_client() {
    let config = AuthConfig::from_env_values(Some("true".to_string()), Some("dev-x".to_string()), None);
    let ctx = AuthService::default().create_dev_context(&config);
    assert_eq!(ctx.client_id, "dev-x");
}

#[test]
fn middleware_missing_key_is_unauthorized() {
    let config = AuthConfig::default();
    assert_eq!(authenticate(&config, None).err(), Some(UNAUTHORIZED));
    assert_eq!(UNAUTHORIZED, 401);
}

#[test]
fn middleware_invalid_key_is_unauthorized() {
    let config = AuthConfig::default();
    assert_eq!(authenticate(&config, Some("invalid-key")).err(), Some(401));
}

#[test]
fn middleware_valid_key_is_admitted() {
    let config = AuthConfig::default();
    let ctx = authenticate(&config, Some("test-api-key-123")).ok().expect("admitted");
    assert_eq!(ctx.client_id, "test-client-456");
}

#[test]
fn middleware_development_mode_bypasses_keys() {
    let config = AuthConfig::from_env_values(Some("true".to_string()), None, None);
    let ctx = authenticate(&config, None).ok().expect("admitted");
    assert_eq!(ctx.client_id, "dev-client-123");
    let ctx = authenticate(&config, Some("invalid-key")).ok().expect("admitted");
    assert_eq!(ctx.client_id, "dev-client-123");
}

#[test]
fn auth_error_responses() {
    let (status, message) = AuthError::ApiKeyValidationFailed.response_parts();
    assert_eq!((status, message.as_str()), (401, "Authentication failed"));
    let (status, _) = AuthError::ApiKeyInactive.response_parts();
    assert_eq!(status, 401);
    let e = AuthError::RepositoryOperationFailed("db down".to_string());
    let (status, message) = e.response_parts();
    assert_eq!((status, message.as_str()), (500, "An internal error occurred"));
    assert_eq!(e.description(), "Repository operation failed: db down");
    assert_eq!(AuthError::ApiKeyInactive.description(), "API key is inactive");
}

#[test]
fn e2e_missing_api_key_returns_401() {
    let config = AuthConfig::default();
    assert_eq!(authenticate(&config, None).unwrap_err(), 401);
}

#[test]
fn e2e_invalid_api_key_returns_401() {
    let config = AuthConfig::default();
    assert_eq!(authenticate(&config, Some("invalid-key")).unwrap_err(), 401);
}

#[test]
fn e2e_valid_api_key_returns_200_and_context_present() {
    let config = AuthConfig::default();
    let context = authenticate(&config, Some("test-api-key-123")).unwrap();
    assert!(!context.client_id.is_empty());
}
