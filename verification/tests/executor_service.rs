use gateway::features::executor::openai::{openai_check_model, openai_health_outcome, openai_outcome, transport_error};
use gateway::common::contracts::RoutePlan;
use gateway::features::executor::config::{ExecutorConfig, OpenAIConfig};
use gateway::features::executor::error::ExecutorError;
use gateway::features::executor::models::{ExecutionParams, ExecutionResult, Message, RequestPayload};
use gateway::features::executor::repository::{ExecutorRepository, VendorEntry};
use gateway::features::executor::run::{backoff_ms, ExecutionRun, Step, VendorCall};
use gateway::features::executor::service::ExecutorService;

fn create_test_executor_service() -> ExecutorService {
    let config = ExecutorConfig {
        openai: Some(OpenAIConfig::from_env_values(Some("test-key".to_string()), None, None)),
        anthropic_api_key: None,
        max_retries: 3,
        timeout_ms: 30000,
    };
    ExecutorService::from_config(config).expect("Failed to create test executor")
}

fn service_with(vendor: &str, models: &[&str], max_retries: u32) -> ExecutorService {
    let mut repository = ExecutorRepository::new();
    repository.register(VendorEntry::new(
        vendor.to_string(),
        models.iter().map(|m| m.to_string()).collect(),
    ));
    let config = ExecutorConfig {
        openai: None,
        anthropic_api_key: None,
        timeout_ms: 30000,
        max_retries,
    };
    ExecutorService::new(repository, config)
}

fn result_for(model: &str) -> ExecutionResult<f64> {
    ExecutionResult {
        content: "ok".to_string(),
        model_used: model.to_string(),
        prompt_tokens: 1,
        completion_tokens: 1,
        total_cost: 0.0,
        finish_reason: "stop".to_string(),
    }
}

/// Drives a run to its end, answering each call with `vendor`, and returns
/// the result together with the calls made.
fn drive(
    service: &ExecutorService,
    mut run: ExecutionRun,
    mut step: Step<ExecutionResult<f64>>,
    vendor: &dyn Fn(&VendorCall) -> Result<ExecutionResult<f64>, ExecutorError>,
) -> (Result<ExecutionResult<f64>, ExecutorError>, Vec<(String, String, u32, u64)>) {
    let mut calls = Vec::new();
    loop {
        match step {
            Step::Done(r) => return (r, calls),
            Step::Call(c) => {
                calls.push((c.vendor_id.clone(), c.model_id.clone(), c.attempt, c.backoff_ms));
                let outcome = vendor(&c);
                assert!(!run.backoff_overflows(&outcome));
                step = service.advance(&mut run, outcome);
            }
        }
    }
}

/// A payload with one user message.
fn user_payload() -> RequestPayload<f64> {
    RequestPayload {
        messages: Some(vec![message("user", "Hello")]),
        temperature: None,
        max_tokens: None,
        top_p: None,
        stream: None,
    }
}

/// Starts executing a plan for a valid payload.
fn start(
    service: &ExecutorService,
    plan: &RoutePlan,
) -> (ExecutionRun, Step<ExecutionResult<f64>>) {
    let (_params, run, step) = service.execute(plan, user_payload()).expect("valid payload");
    (run, step)
}

fn message(role: &str, content: &str) -> Message {
    Message { role: role.to_string(), content: content.to_string() }
}

#[test]
fn test_get_vendor_success() {
    let service = create_test_executor_service();

    let result = service.get_vendor("openai");
    assert!(result.is_ok());

    let vendor = result.unwrap();
    assert_eq!(vendor.vendor_id(), "openai");
}

#[test]
fn test_get_vendor_not_found() {
    let service = create_test_executor_service();

    let result = service.get_vendor("unknown_vendor");
    assert!(result.is_err());

    match result {
        Err(ExecutorError::UnsupportedVendor(vendor_id)) => {
            assert_eq!(vendor_id, "unknown_vendor");
        }
        _ => panic!("Expected UnsupportedVendor error"),
    }
}

#[test]
fn test_get_vendor_case_sensitive() {
    let service = create_test_executor_service();

    let result = service.get_vendor("OpenAI");
    assert!(result.is_err());

    match result {
        Err(ExecutorError::UnsupportedVendor(vendor_id)) => {
            assert_eq!(vendor_id, "OpenAI");
        }
        _ => panic!("Expected UnsupportedVendor error"),
    }
}

#[test]
fn test_vendor_count() {
    let service = create_test_executor_service();
    assert_eq!(service.vendor_count(), 1);
}

#[test]
fn test_is_retryable_error_network_error() {
    let error = ExecutorError::NetworkError("Connection failed".to_string());
    assert!(ExecutorService::is_retryable_error(&error));
}

#[test]
fn test_is_retryable_error_timeout() {
    let error = ExecutorError::TimeoutError(30000);
    assert!(ExecutorService::is_retryable_error(&error));
}

#[test]
fn test_is_retryable_error_rate_limit() {
    let error = ExecutorError::RateLimitExceeded("openai".to_string());
    assert!(ExecutorService::is_retryable_error(&error));
}

#[test]
fn test_is_retryable_error_api_call_failed() {
    let error = ExecutorError::ApiCallFailed("500 Internal Server Error".to_string());
    assert!(ExecutorService::is_retryable_error(&error));
}

#[test]
fn test_is_not_retryable_error_authentication() {
    let error = ExecutorError::AuthenticationFailed("openai".to_string());
    assert!(!ExecutorService::is_retryable_error(&error));
}

#[test]
fn test_is_not_retryable_error_invalid_payload() {
    let error = ExecutorError::InvalidPayload("Missing messages".to_string());
    assert!(!ExecutorService::is_retryable_error(&error));
}

#[test]
fn test_is_not_retryable_error_unsupported_vendor() {
    let error = ExecutorError::UnsupportedVendor("unknown".to_string());
    assert!(!ExecutorService::is_retryable_error(&error));
}

#[test]
fn test_is_not_retryable_error_unsupported_model() {
    let error = ExecutorError::UnsupportedModel("openai".to_string(), "gpt-5".to_string());
    assert!(!ExecutorService::is_retryable_error(&error));
}

#[test]
fn test_execute_fallbacks_empty_list() {
    let service = create_test_executor_service();
    let primary_error = ExecutorError::ApiCallFailed("Primary failed".to_string());

    let (_run, step) =
        service.execute_fallbacks::<ExecutionResult<f64>>(&vec![], primary_error.clone());

    match step {
        Step::Done(Err(ExecutorError::ApiCallFailed(msg))) => {
            assert_eq!(msg, "Primary failed");
        }
        _ => panic!("Expected ApiCallFailed error"),
    }
}

#[test]
fn test_extract_params_with_all_fields() {
    // {"messages": [system, user], "temperature": 0.7, "max_tokens": 100,
    //  "top_p": 0.9, "stream": true}
    let payload = RequestPayload {
        messages: Some(vec![
            message("system", "You are a helpful assistant."),
            message("user", "Hello!"),
        ]),
        temperature: Some(0.7),
        max_tokens: Some(100),
        top_p: Some(0.9),
        stream: Some(true),
    };

    let result = ExecutorService::extract_params(payload);
    assert!(result.is_ok());

    let params: ExecutionParams<f64> = result.ok().unwrap();
    assert_eq!(params.messages.len(), 2);
    assert_eq!(params.messages[0].role, "system");
    assert_eq!(params.messages[0].content, "You are a helpful assistant.");
    assert_eq!(params.messages[1].role, "user");
    assert_eq!(params.messages[1].content, "Hello!");
    assert_eq!(params.temperature, Some(0.7));
    assert_eq!(params.max_tokens, Some(100));
    assert_eq!(params.top_p, Some(0.9));
    assert!(params.stream);
}

#[test]
fn test_extract_params_with_required_only() {
    // {"messages": [{"role": "user", "content": "Hello!"}]}
    let payload: RequestPayload<f64> = RequestPayload {
        messages: Some(vec![message("user", "Hello!")]),
        temperature: None,
        max_tokens: None,
        top_p: None,
        stream: None,
    };

    let result = ExecutorService::extract_params(payload);
    assert!(result.is_ok());

    let params = result.ok().unwrap();
    assert_eq!(params.messages.len(), 1);
    assert_eq!(params.messages[0].role, "user");
    assert_eq!(params.messages[0].content, "Hello!");
    assert_eq!(params.temperature, None);
    assert_eq!(params.max_tokens, None);
    assert_eq!(params.top_p, None);
    assert!(!params.stream);
}

#[test]
fn test_extract_params_missing_messages() {
    // {"temperature": 0.7, "max_tokens": 100}
    let payload = RequestPayload {
        messages: None,
        temperature: Some(0.7),
        max_tokens: Some(100),
        top_p: None,
        stream: None,
    };

    let result = ExecutorService::extract_params(payload);
    assert!(result.is_err());

    match result {
        Err(ExecutorError::InvalidPayload(msg)) => {
            assert!(msg.contains("messages"));
        }
        _ => panic!("Expected InvalidPayload error"),
    }
}

#[test]
fn test_extract_params_invalid_messages_type() {
    // {"messages": "not an array"}: the messages do not decode.
    let payload: RequestPayload<f64> = RequestPayload {
        messages: None,
        temperature: None,
        max_tokens: None,
        top_p: None,
        stream: None,
    };

    let result = ExecutorService::extract_params(payload);
    assert!(result.is_err());

    match result {
        Err(ExecutorError::InvalidPayload(msg)) => {
            assert!(msg.contains("messages"));
        }
        _ => panic!("Expected InvalidPayload error"),
    }
}

#[test]
fn test_extract_params_invalid_message_structure() {
    // {"messages": [{"role": "user"}]}: a message without content does not
    // decode.
    let payload: RequestPayload<f64> = RequestPayload {
        messages: None,
        temperature: None,
        max_tokens: None,
        top_p: None,
        stream: None,
    };

    let result = ExecutorService::extract_params(payload);
    assert!(result.is_err());
}

#[test]
fn test_extract_params_ignores_invalid_optional_fields() {
    // {"messages": [...], "temperature": "not a number", "max_tokens": 100,
    //  "stream": "yes"}: the mistyped fields read as absent.
    let payload: RequestPayload<f64> = RequestPayload {
        messages: Some(vec![message("user", "Hello!")]),
        temperature: None,
        max_tokens: Some(100),
        top_p: None,
        stream: None,
    };

    let result = ExecutorService::extract_params(payload);
    assert!(result.is_ok());

    let params = result.ok().unwrap();
    assert_eq!(params.temperature, None);
    assert_eq!(params.max_tokens, Some(100));
    assert!(!params.stream);
}

#[test]
fn backoff_doubles_from_one_second() {
    assert_eq!(backoff_ms(0), 0);
    assert_eq!(backoff_ms(1), 1000);
    assert_eq!(backoff_ms(2), 2000);
    assert_eq!(backoff_ms(3), 4000);
    assert_eq!(backoff_ms(4), 8000);
    assert_eq!(backoff_ms(55), 1000 * (1u64 << 54));
}

#[test]
fn success_on_first_attempt_is_returned_unchanged() {
    let service = service_with("openai", &["gpt-4"], 3);
    let plan = RoutePlan::single("openai", "gpt-4");
    let (run, step) = start(&service, &plan);
    let (result, calls) = drive(&service, run, step, &|c| {
        let mut r = result_for(&c.model_id);
        r.content = "answer".to_string();
        Ok(r)
    });
    let r = result.expect("execution should succeed");
    assert_eq!(r.content, "answer");
    assert_eq!(r.model_used, "gpt-4");
    assert_eq!(calls, vec![("openai".to_string(), "gpt-4".to_string(), 0, 0)]);
}

#[test]
fn retryable_errors_use_the_whole_budget_with_backoff() {
    let service = service_with("openai", &["gpt-4"], 3);
    let plan = RoutePlan::single("openai", "gpt-4");
    let (run, step) = start(&service, &plan);
    let (result, calls) = drive(&service, run, step, &|c| {
        Err(ExecutorError::NetworkError(format!("down {}", c.attempt)))
    });
    match result {
        Err(ExecutorError::NetworkError(m)) => assert_eq!(m, "down 3"),
        _ => panic!("expected the last network error"),
    }
    let attempts: Vec<(u32, u64)> = calls.iter().map(|c| (c.2, c.3)).collect();
    assert_eq!(attempts, vec![(0, 0), (1, 1000), (2, 2000), (3, 4000)]);
}

#[test]
fn non_retryable_error_is_not_retried() {
    let service = service_with("openai", &["gpt-4"], 3);
    let plan = RoutePlan::single("openai", "gpt-4");
    let (run, step) = start(&service, &plan);
    let (result, calls) = drive(&service, run, step, &|_| {
        Err(ExecutorError::AuthenticationFailed("openai".to_string()))
    });
    assert!(matches!(result, Err(ExecutorError::AuthenticationFailed(_))));
    assert_eq!(calls.len(), 1);
}

#[test]
fn retry_then_success() {
    let service = service_with("openai", &["gpt-4"], 3);
    let plan = RoutePlan::single("openai", "gpt-4");
    let (run, step) = start(&service, &plan);
    let (result, calls) = drive(&service, run, step, &|c| {
        if c.attempt < 2 {
            Err(ExecutorError::RateLimitExceeded("openai".to_string()))
        } else {
            Ok(result_for(&c.model_id))
        }
    });
    assert!(result.is_ok());
    assert_eq!(calls.len(), 3);
}

#[test]
fn fallback_serves_after_primary_fails() {
    let service = service_with("openai", &["gpt-4", "gpt-3.5-turbo"], 1);
    let plan = RoutePlan {
        vendor_id: "openai".to_string(),
        model_id: "gpt-4".to_string(),
        fallback_plans: vec![RoutePlan::single("openai", "gpt-3.5-turbo")],
    };
    let (run, step) = start(&service, &plan);
    let (result, calls) = drive(&service, run, step, &|c| {
        if c.model_id == "gpt-4" {
            Err(ExecutorError::TimeoutError(30000))
        } else {
            Ok(result_for(&c.model_id))
        }
    });
    assert_eq!(result.expect("fallback should succeed").model_used, "gpt-3.5-turbo");
    let models: Vec<(String, u32)> = calls.iter().map(|c| (c.1.clone(), c.2)).collect();
    assert_eq!(
        models,
        vec![
            ("gpt-4".to_string(), 0),
            ("gpt-4".to_string(), 1),
            ("gpt-3.5-turbo".to_string(), 0)
        ]
    );
}

#[test]
fn all_fallbacks_failing_reports_primary_error() {
    let service = service_with("openai", &["gpt-4", "gpt-3.5-turbo"], 0);
    let plan = RoutePlan {
        vendor_id: "openai".to_string(),
        model_id: "gpt-4".to_string(),
        fallback_plans: vec![
            RoutePlan::single("cohere", "command-r"),
            RoutePlan::single("openai", "gpt-3.5-turbo"),
        ],
    };
    let (run, step) = start(&service, &plan);
    let (result, calls) = drive(&service, run, step, &|c| {
        Err(ExecutorError::ApiCallFailed(format!("failed {}", c.model_id)))
    });
    match result {
        Err(ExecutorError::ApiCallFailed(m)) => assert_eq!(m, "failed gpt-4"),
        _ => panic!("expected the primary error"),
    }
    // The unregistered fallback vendor is skipped without a call.
    assert_eq!(calls.len(), 2);
}

#[test]
fn unsupported_primary_model_is_reported_without_calls() {
    let service = service_with("openai", &["gpt-3.5-turbo"], 3);
    let plan = RoutePlan::single("openai", "gpt-4");
    let (_params, _run, step) = service.execute::<ExecutionResult<f64>, f64>(&plan, user_payload()).expect("valid payload");
    match step {
        Step::Done(Err(ExecutorError::UnsupportedModel(vendor, model))) => {
            assert_eq!(vendor, "openai");
            assert_eq!(model, "gpt-4");
        }
        _ => panic!("expected UnsupportedModel"),
    }
}

#[test]
fn unknown_vendor_with_retry_is_unsupported() {
    let service = create_test_executor_service();
    let (_run, step) = service.execute_with_retry::<()>("cohere", "command-r");
    match step {
        Step::Done(Err(ExecutorError::UnsupportedVendor(v))) => assert_eq!(v, "cohere"),
        _ => panic!("expected UnsupportedVendor"),
    }
}

#[test]
fn no_vendor_configured_is_refused() {
    let config = ExecutorConfig::default();
    assert!(matches!(
        ExecutorService::from_config(config),
        Err(ExecutorError::NoVendorsConfigured)
    ));
}

#[test]
fn run_start_with_retry_calls_target_first() {
    let repository = {
        let mut r = ExecutorRepository::new();
        r.register(VendorEntry::new("openai".to_string(), vec!["gpt-4".to_string()]));
        r
    };
    let (run, step) = ExecutionRun::with_retry::<()>(&repository, "openai", "gpt-4", 2);
    assert!(run.is_active());
    match step {
        Step::Call(c) => {
            assert_eq!(c.vendor_id, "openai");
            assert_eq!(c.model_id, "gpt-4");
            assert_eq!(c.attempt, 0);
            assert_eq!(c.backoff_ms, 0);
        }
        _ => panic!("expected a call"),
    }
}

#[test]
fn registering_a_vendor_again_replaces_it() {
    let mut repository = ExecutorRepository::new();
    repository.register(VendorEntry::new("openai".to_string(), vec!["gpt-4".to_string()]));
    repository.register(VendorEntry::new("openai".to_string(), vec!["gpt-4-turbo".to_string()]));
    assert_eq!(repository.vendor_count(), 1);
    let v = repository.get_vendor("openai").ok().unwrap();
    assert!(v.supports_model("gpt-4-turbo"));
    assert!(!v.supports_model("gpt-4"));
}

#[test]
fn failing_run_makes_at_most_targets_times_attempts_calls() {
    let service = service_with("openai", &["gpt-4", "gpt-3.5-turbo"], 2);
    let plan = RoutePlan {
        vendor_id: "openai".to_string(),
        model_id: "gpt-4".to_string(),
        fallback_plans: vec![RoutePlan::single("openai", "gpt-3.5-turbo")],
    };
    let (run, step) = start(&service, &plan);
    let (result, calls) = drive(&service, run, step, &|_| Err(ExecutorError::TimeoutError(5)));
    assert!(matches!(result, Err(ExecutorError::TimeoutError(5))));
    // (1 primary + 1 fallback) targets, each tried 1 + 2 times.
    assert_eq!(calls.len(), 6);
}

#[test]
fn invalid_payload_ends_execution_before_any_call() {
    let service = create_test_executor_service();
    let plan = RoutePlan::single("openai", "gpt-4");
    let payload: RequestPayload<f64> =
        RequestPayload { messages: None, temperature: None, max_tokens: None, top_p: None, stream: None };
    match service.execute::<ExecutionResult<f64>, f64>(&plan, payload) {
        Err(ExecutorError::InvalidPayload(m)) => assert_eq!(m, "Missing or invalid 'messages' field"),
        _ => panic!("expected InvalidPayload"),
    }
}

#[test]
fn openai_answers_become_outcomes() {
    let models = vec!["gpt-4".to_string()];
    assert!(openai_check_model(&models, "gpt-4").is_ok());
    match openai_check_model(&models, "gpt-5") {
        Err(ExecutorError::UnsupportedModel(vendor, model)) => {
            assert_eq!(vendor, "openai");
            assert_eq!(model, "gpt-5");
        }
        _ => panic!("expected UnsupportedModel"),
    }

    match openai_outcome::<f64>("gpt-4", 429, "429 Too Many Requests", "slow down", vec![], (0, 0), 0.0) {
        Err(ExecutorError::ApiCallFailed(m)) => {
            assert_eq!(m, "OpenAI API error 429 Too Many Requests: slow down")
        }
        _ => panic!("expected ApiCallFailed"),
    }
    match openai_outcome::<f64>("gpt-4", 200, "200 OK", "", vec![], (1, 2), 0.5) {
        Err(ExecutorError::ApiCallFailed(m)) => assert_eq!(m, "No choices in response"),
        _ => panic!("expected ApiCallFailed"),
    }
    let ok = openai_outcome(
        "gpt-4",
        200,
        "200 OK",
        "",
        vec![("Hi".to_string(), "stop".to_string()), ("Other".to_string(), "length".to_string())],
        (10, 20),
        0.0015f64,
    )
    .expect("ok");
    assert_eq!(ok.content, "Hi");
    assert_eq!(ok.finish_reason, "stop");
    assert_eq!(ok.model_used, "gpt-4");
    assert_eq!((ok.prompt_tokens, ok.completion_tokens), (10, 20));
    assert_eq!(ok.total_cost, 0.0015);

    assert!(openai_health_outcome(204, "204 No Content").is_ok());
    assert!(matches!(
        openai_health_outcome(401, "401 Unauthorized"),
        Err(ExecutorError::AuthenticationFailed(v)) if v == "openai"
    ));
    match openai_health_outcome(500, "500 Internal Server Error") {
        Err(ExecutorError::ApiCallFailed(m)) => {
            assert_eq!(m, "OpenAI health check failed: 500 Internal Server Error")
        }
        _ => panic!("expected ApiCallFailed"),
    }
}

#[test]
fn vendor_health_is_any_healthy_else_last_error() {
    assert!(matches!(
        ExecutorService::vendors_health(&vec![]),
        Err(ExecutorError::NoVendorsConfigured)
    ));
    assert!(ExecutorService::vendors_health(&vec![
        Err(ExecutorError::TimeoutError(1)),
        Ok(()),
    ])
    .is_ok());
    match ExecutorService::vendors_health(&vec![
        Err(ExecutorError::TimeoutError(1)),
        Err(ExecutorError::NetworkError("down".to_string())),
    ]) {
        Err(ExecutorError::NetworkError(m)) => assert_eq!(m, "down"),
        _ => panic!("expected the last vendor's error"),
    }
}

#[test]
fn transport_failures_map_to_errors() {
    assert!(matches!(transport_error(true, true, "t".to_string(), 30000), ExecutorError::TimeoutError(30000)));
    assert!(matches!(transport_error(false, true, "c".to_string(), 5), ExecutorError::NetworkError(m) if m == "c"));
    assert!(matches!(transport_error(false, false, "x".to_string(), 5), ExecutorError::ApiCallFailed(m) if m == "x"));
}
