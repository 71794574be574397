use gateway::diagnostics::LogLevel;
use gateway::features::executor::config::{ExecutorConfig, OpenAIConfig};
use gateway::features::executor::error::ExecutorError;
use gateway::features::executor::service::ExecutorService;
use gateway::features::health::error::HealthError;
use gateway::features::health::repository::HealthRepository;
use gateway::features::health::service::{HealthConfig, HealthService};
use gateway::text::{format_u64, is_blank, parse_bool, parse_u32, parse_u64};
use std::sync::Arc;

const NOW: (i64, u32) = (1_700_000_000, 500_000_000);

fn openai_service() -> Arc<ExecutorService> {
    let config = ExecutorConfig::from_env_values(Some("k".to_string()), None, None, None, None, None);
    Arc::new(ExecutorService::from_config(config).expect("configured"))
}

#[test]
fn health_check_reports_healthy_with_version_and_uptime() {
    let service = HealthService::new(HealthConfig::from_env_values(None, None));
    let r = service.check_health("1.2.3", 42, NOW.0, NOW.1).expect("healthy");
    assert_eq!(r.status, "healthy");
    assert_eq!(r.version, Some("1.2.3".to_string()));
    assert_eq!(r.uptime_seconds, Some(42));
    assert!(r.timestamp.contains('T'));
}

#[test]
fn system_status_is_healthy() {
    assert!(HealthRepository::new().get_system_status().expect("ok").is_healthy);
}

#[test]
fn readiness_without_executor_is_ready() {
    let service = HealthService::new(HealthConfig::from_env_values(None, None));
    assert!(!service.has_executor());
    let r = service.check_readiness(None, NOW.0, NOW.1).expect("ok");
    assert_eq!(r.status, "ready");
    assert_eq!(r.dependencies.status, "healthy");
    assert_eq!(r.dependencies.vendor_count, None);
    assert_eq!(r.dependencies.latency_ms, None);
    assert_eq!(r.dependencies.error, None);
}

#[test]
fn readiness_follows_dependency_check() {
    let service = HealthService::with_executor(openai_service(), HealthConfig::from_env_values(None, None));
    let ready = service.check_readiness(Some((Ok(()), 7)), NOW.0, NOW.1).expect("ok");
    assert_eq!(ready.status, "ready");
    assert_eq!(ready.dependencies.vendor_count, Some(1));
    assert_eq!(ready.dependencies.latency_ms, Some(7));
    let not_ready = service
        .check_readiness(Some((Err("Service dependencies unavailable".to_string()), 9)), NOW.0, NOW.1)
        .expect("ok");
    assert_eq!(not_ready.status, "not_ready");
    assert_eq!(not_ready.dependencies.status, "unhealthy");
    assert_eq!(not_ready.dependencies.error, Some("Service dependencies unavailable".to_string()));
}

#[test]
fn readiness_with_executor_needs_a_check_result() {
    let service = HealthService::with_executor(openai_service(), HealthConfig::from_env_values(None, None));
    assert!(matches!(service.check_readiness(None, NOW.0, NOW.1), Err(HealthError::DependencyValidationFailed)));
}

#[test]
fn only_successful_checks_are_cached_and_they_expire() {
    let mut service = HealthService::with_executor(
        openai_service(),
        HealthConfig::from_env_values(Some("2".to_string()), Some("5".to_string())),
    );
    assert_eq!(service.cached_executor_health(0), None);
    let failed = service.record_executor_health(Err(ExecutorError::NetworkError("x".to_string())), 0);
    assert_eq!(failed, Err("Service dependencies unavailable".to_string()));
    assert_eq!(service.cached_executor_health(0), None);
    assert_eq!(service.record_executor_health(Ok(()), 1_000_000_000), Ok(()));
    assert_eq!(service.cached_executor_health(5_999_999_999), Some(Ok(())));
    assert_eq!(service.cached_executor_health(6_000_000_000), None);
    assert_eq!(HealthService::no_executor_error(), "No executor service configured");
}

#[test]
fn health_config_defaults() {
    let c = HealthConfig::from_env_values(None, Some("oops".to_string()));
    assert_eq!(c.timeout, 2);
    assert_eq!(c.cache_ttl_secs, 5);
}

#[test]
fn health_errors_are_service_unavailable() {
    for e in [
        HealthError::SystemStatusCheckFailed,
        HealthError::DependencyValidationFailed,
        HealthError::ResourceMonitoringFailed,
        HealthError::HealthAggregationFailed,
    ] {
        let (s, m) = e.response_parts();
        assert_eq!(s, 503);
        assert_eq!(m, "Health check failed - service temporarily unavailable.");
    }
    assert_eq!(HealthError::HealthAggregationFailed.description(), "Health aggregation failed");
}

#[test]
fn executor_config_from_environment_values() {
    let c = ExecutorConfig::from_env_values(
        Some("sk".to_string()),
        Some("http://localhost:9/v1".to_string()),
        Some("1500".to_string()),
        Some("".to_string()),
        Some("+45000".to_string()),
        Some("4294967296".to_string()),
    );
    let o = c.openai.as_ref().expect("openai configured");
    assert_eq!(o.api_key, "sk");
    assert_eq!(o.base_url, "http://localhost:9/v1");
    assert_eq!(o.timeout_ms, 1500);
    assert_eq!(o.supported_models, vec!["gpt-4", "gpt-4-turbo", "gpt-3.5-turbo"]);
    assert_eq!(c.anthropic_api_key, Some("".to_string()));
    assert_eq!(c.timeout_ms, 45000);
    assert_eq!(c.max_retries, 3);

    let none = ExecutorConfig::from_env_values(None, None, None, None, None, Some("7".to_string()));
    assert!(none.openai.is_none());
    assert_eq!(none.max_retries, 7);
    assert_eq!(none.timeout_ms, 30000);
}

#[test]
fn openai_config_defaults_and_validation() {
    let o = OpenAIConfig::from_env_values(None, None, None);
    assert_eq!(o.base_url, "https://api.openai.com/v1");
    assert_eq!(o.timeout_ms, 30000);
    assert_eq!(o.validate(), Err("OPENAI_API_KEY is not set or empty".to_string()));
    let mut o = OpenAIConfig::from_env_values(Some("k".to_string()), None, None);
    assert_eq!(o.validate(), Ok(()));
    o.supported_models.clear();
    assert_eq!(o.validate(), Err("No supported models configured".to_string()));
}

#[test]
fn executor_config_diagnostics() {
    let lines = ExecutorConfig::default().validate();
    let texts: Vec<(LogLevel, String)> = lines.into_iter().map(|l| (l.level, l.message)).collect();
    assert_eq!(
        texts,
        vec![
            (
                LogLevel::Warn,
                "No LLM vendor API keys configured. Set OPENAI_API_KEY or ANTHROPIC_API_KEY."
                    .to_string()
            ),
            (LogLevel::Info, "Executor timeout: 30000ms".to_string()),
            (LogLevel::Info, "Executor max retries: 3".to_string()),
        ]
    );
    let c = ExecutorConfig::from_env_values(
        Some("k".to_string()),
        None,
        None,
        Some("".to_string()),
        None,
        None,
    );
    let texts: Vec<String> = c.validate().into_iter().map(|l| l.message).collect();
    assert_eq!(texts[0], "OpenAI vendor configured with 3 models");
    assert_eq!(texts[1], "ANTHROPIC_API_KEY is empty");
    let c = ExecutorConfig::from_env_values(Some("".to_string()), None, None, None, None, None);
    let texts: Vec<String> = c.validate().into_iter().map(|l| l.message).collect();
    assert_eq!(texts[0], "OpenAI configuration invalid: OPENAI_API_KEY is not set or empty");
}

#[test]
fn decimal_parsing_follows_str_parse() {
    assert_eq!(parse_u64("0"), Some(0));
    assert_eq!(parse_u64("+12"), Some(12));
    assert_eq!(parse_u64("18446744073709551615"), Some(u64::MAX));
    assert_eq!(parse_u64("18446744073709551616"), None);
    assert_eq!(parse_u64(""), None);
    assert_eq!(parse_u64("+"), None);
    assert_eq!(parse_u64(" 1"), None);
    assert_eq!(parse_u64("-1"), None);
    assert_eq!(parse_u64("1_000"), None);
    assert_eq!(parse_u32("4294967295"), Some(u32::MAX));
    assert_eq!(parse_u32("4294967296"), None);
    for s in ["0", "+7", "00012", "99999999999999999999", "12a", "٣"] {
        assert_eq!(parse_u64(s), s.parse::<u64>().ok(), "{}", s);
        assert_eq!(parse_u32(s), s.parse::<u32>().ok(), "{}", s);
    }
}

#[test]
fn flags_and_blanks() {
    assert_eq!(parse_bool("true"), Some(true));
    assert_eq!(parse_bool("false"), Some(false));
    assert_eq!(parse_bool("True"), None);
    assert!(is_blank(""));
    assert!(is_blank(" \u{85}\u{a0}\u{2028}"));
    assert!(!is_blank(" x "));
    for s in ["", " ", "\u{200b}", "\u{180e}", "a"] {
        assert_eq!(is_blank(s), s.trim().is_empty(), "{:?}", s);
    }
}

#[test]
fn decimal_formatting_roundtrips() {
    for n in [0u64, 7, 10, 12345, u64::MAX] {
        let s = format_u64(n);
        assert_eq!(s, n.to_string());
        assert_eq!(parse_u64(&s), Some(n));
    }
}

#[test]
fn health_timestamp_is_rfc3339_utc() {
    let service = HealthService::new(HealthConfig::from_env_values(None, None));
    let h = service.check_health("1.0.0", 3, 1_700_000_000, 0).expect("ok");
    assert_eq!(h.timestamp, "2023-11-14T22:13:20+00:00");
    let r = service.check_readiness(None, 1_700_000_000, 500_000_000).expect("ok");
    assert_eq!(r.timestamp, "2023-11-14T22:13:20.500+00:00");
    let early = service.check_health("1.0.0", 3, -1, 0).expect("ok");
    assert_eq!(early.timestamp, "1969-12-31T23:59:59+00:00");
}

#[test]
fn unrepresentable_time_fails_health_checks() {
    let service = HealthService::new(HealthConfig::from_env_values(None, None));
    assert!(matches!(
        service.check_health("1.0.0", 3, i64::MAX, 0),
        Err(HealthError::HealthAggregationFailed)
    ));
    assert!(matches!(
        service.check_readiness(None, 0, 2_000_000_000),
        Err(HealthError::HealthAggregationFailed)
    ));
}
