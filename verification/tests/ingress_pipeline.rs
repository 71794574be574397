use gateway::common::contracts::RoutePlan;
use gateway::common::correlation::RequestContext;
use gateway::common::error::AppError;
use gateway::features::executor::config::ExecutorConfig;
use gateway::features::executor::error::ExecutorError;
use gateway::features::executor::models::{ExecutionResult, RequestPayload};
use gateway::features::executor::repository::{ExecutorRepository, VendorEntry};
use gateway::features::executor::run::Step;
use gateway::features::executor::service::ExecutorService;
use gateway::features::health::error::HealthError;
use gateway::features::ingress::error::IngressError;
use gateway::features::ingress::mockdata::MockDataProvider;
use gateway::features::ingress::repository::IngressRepository;
use gateway::features::ingress::service::IngressService;

fn create_repository() -> IngressRepository {
    IngressRepository::new()
}

fn create_mock_executor_service(models: Vec<&str>) -> ExecutorService {
    let mut repository = ExecutorRepository::new();
    repository.register(VendorEntry::new(
        "openai".to_string(),
        models.into_iter().map(|m| m.to_string()).collect(),
    ));
    ExecutorService::new(
        repository,
        ExecutorConfig { openai: None, anthropic_api_key: None, timeout_ms: 30000, max_retries: 3 },
    )
}

/// The mock vendor of the original tests: always answers the same.
fn mock_vendor_answer(model: &str) -> Result<ExecutionResult<f64>, ExecutorError> {
    Ok(ExecutionResult {
        content: "Mock ingress response".to_string(),
        model_used: model.to_string(),
        prompt_tokens: 15,
        completion_tokens: 25,
        total_cost: 0.001,
        finish_reason: "stop".to_string(),
    })
}

/// Runs a plan to its end against the mock vendor.
fn execute(
    executor: &ExecutorService,
    plan: &RoutePlan,
    payload: RequestPayload<f64>,
) -> Result<ExecutionResult<f64>, ExecutorError> {
    let (_params, mut run, mut step) = executor.execute(plan, payload)?;
    loop {
        match step {
            Step::Done(r) => return r,
            Step::Call(c) => {
                let outcome = mock_vendor_answer(&c.model_id);
                step = executor.advance(&mut run, outcome);
            }
        }
    }
}

#[test]
fn test_get_context_populates_cache_for_user() {
    let mut repository = create_repository();
    let request_context = RequestContext::new("req-1".to_string(), None);

    let _ = repository
        .get_context("user-a", &request_context, 0)
        .expect("context retrieval should succeed");

    assert!(repository.is_cached("user-a"));
}

#[test]
fn test_get_context_refreshes_expired_cache_entry() {
    let mut repository = IngressRepository::with_cache_limits(10, 1000);
    let request_context = RequestContext::new("req-2".to_string(), None);

    let _ = repository
        .get_context("user-b", &request_context, 0)
        .expect("first context retrieval should succeed");

    let _ = repository
        .get_context("user-b", &request_context, 20)
        .expect("second context retrieval should succeed after ttl expiry");

    assert!(repository.is_cached("user-b"));
}

#[test]
fn test_get_context_evicts_oldest_when_cache_is_full() {
    let mut repository = IngressRepository::with_cache_limits(10_000, 1);
    let request_context = RequestContext::new("req-3".to_string(), None);

    let _ = repository
        .get_context("user-1", &request_context, 0)
        .expect("first context retrieval should succeed");

    let _ = repository
        .get_context("user-2", &request_context, 2)
        .expect("second context retrieval should succeed");

    assert!(!repository.is_cached("user-1"));
    assert!(repository.is_cached("user-2"));
    assert_eq!(repository.cached_count(), 1);
}

#[test]
fn test_update_context_invalidates_cached_user_context() {
    let mut repository = create_repository();
    let request_context = RequestContext::new("req-4".to_string(), None);

    let _ = repository
        .get_context("user-c", &request_context, 0)
        .expect("context retrieval should succeed");

    assert!(repository.is_cached("user-c"));

    repository
        .update_context("user-c", "hello", "world", &request_context)
        .expect("update_context should succeed");

    assert!(!repository.is_cached("user-c"));
}

#[test]
fn test_process_request_success_returns_expected_response_shape() {
    let executor = create_mock_executor_service(vec!["gpt-4"]);
    let mut service = IngressService::new(None);
    let request_context =
        RequestContext::new("req-ingress-1".to_string(), Some("client-1".to_string()));
    let start = std::time::Instant::now();

    let (payload, plan) = service
        .prepare_request::<f64>("Hello ingress", "user-123", &request_context, 0)
        .expect("ingress request should succeed");
    let llm = execute(&executor, &plan, payload);
    let elapsed = start.elapsed().as_millis() as u64;
    let result = service
        .complete_request("Hello ingress", "user-123", &request_context, llm, elapsed)
        .expect("ingress request should succeed");

    assert_eq!(result.response.role, "assistant");
    assert_eq!(result.response.content, "Mock ingress response");
    assert_eq!(result.response.finish_reason, Some("stop".to_string()));
    assert_eq!(result.model_used, "gpt-4");
    assert_eq!(result.cost, 0.001);
    assert!(result.processing_time_ms < 5_000);
}

#[test]
fn test_process_request_returns_execution_failed_for_unsupported_model() {
    let executor = create_mock_executor_service(vec!["gpt-3.5-turbo"]);
    let mut service = IngressService::new(None);
    let request_context = RequestContext::new("req-ingress-2".to_string(), None);

    let (payload, plan) = service
        .prepare_request::<f64>("Trigger unsupported model", "user-456", &request_context, 0)
        .expect("preparation should succeed");
    let llm = execute(&executor, &plan, payload);
    let result = service.complete_request(
        "Trigger unsupported model",
        "user-456",
        &request_context,
        llm,
        0,
    );

    match result {
        Err(IngressError::ExecutionFailed(ExecutorError::UnsupportedModel(model, vendor))) => {
            assert_eq!(model, "openai");
            assert_eq!(vendor, "gpt-4");
        }
        _ => panic!("Expected UnsupportedModel wrapped by IngressError::ExecutionFailed"),
    }
}

#[test]
fn prompt_becomes_a_single_user_message() {
    let payload = IngressService::build_payload::<f64>("Hi there");
    let params = ExecutorService::extract_params(payload).expect("messages present");
    assert_eq!(params.messages.len(), 1);
    assert_eq!(params.messages[0].role, "user");
    assert_eq!(params.messages[0].content, "Hi there");
    assert_eq!(params.temperature, None);
    assert_eq!(params.max_tokens, None);
    assert!(!params.stream);
}

#[test]
fn blank_prompt_is_rejected() {
    match IngressService::validate_prompt(" \t\n\u{3000}") {
        Err(IngressError::InvalidRequest(m)) => assert_eq!(m, "Prompt cannot be empty"),
        _ => panic!("expected InvalidRequest"),
    }
    assert!(IngressService::validate_prompt("").is_err());
    assert!(IngressService::validate_prompt("  hi ").is_ok());
}

#[test]
fn cache_hit_returns_cached_context_without_refresh() {
    let mut repository = IngressRepository::with_cache_limits(100, 10);
    let ctx = RequestContext::new("r".to_string(), None);
    let first = repository.get_context("u", &ctx, 0).expect("ok");
    let second = repository.get_context("u", &ctx, 99).expect("ok");
    assert_eq!(first.conversation_history, second.conversation_history);
    assert_eq!(second.user_preferences, "casual tone, detailed explanations, code examples preferred");
    assert_eq!(second.conversation_history.len(), 4);
    assert_eq!(repository.cached_count(), 1);
}

#[test]
fn cache_never_exceeds_its_limit() {
    let mut repository = IngressRepository::with_cache_limits(1_000_000, 3);
    let ctx = RequestContext::new("r".to_string(), None);
    for i in 0..10u64 {
        let user = format!("user-{}", i);
        repository.get_context(&user, &ctx, i).expect("ok");
        assert!(repository.cached_count() <= 3);
    }
    // The three most recent users remain.
    assert!(repository.is_cached("user-9"));
    assert!(repository.is_cached("user-8"));
    assert!(repository.is_cached("user-7"));
    assert!(!repository.is_cached("user-6"));
}

#[test]
fn stale_entries_are_dropped_on_a_miss() {
    let mut repository = IngressRepository::with_cache_limits(10, 100);
    let ctx = RequestContext::new("r".to_string(), None);
    repository.get_context("old", &ctx, 0).expect("ok");
    repository.get_context("new", &ctx, 50).expect("ok");
    assert!(!repository.is_cached("old"));
    assert!(repository.is_cached("new"));
}

#[test]
fn mock_router_picks_gpt4() {
    let r = MockDataProvider::get_mock_router_response();
    assert_eq!(r.optimized_plan.vendor_id, "openai");
    assert_eq!(r.optimized_plan.model_id, "gpt-4");
    assert!(r.optimized_plan.fallback_plans.is_empty());
    assert_eq!(r.optimization_reason, "Selected gpt-4 for best quality");
    assert_eq!(MockDataProvider::get_mock_user_id(), "mock_user_123");
    assert_eq!(
        MockDataProvider::get_mock_context().conversation_history[0],
        "User: Hello, how are you?"
    );
}

#[test]
fn rewrite_marks_prompt() {
    assert_eq!(IngressService::process_prompt("hello", true), "[Rewritten] hello");
    assert_eq!(IngressService::process_prompt("hello", false), "hello");
}

#[test]
fn slow_request_threshold() {
    let service = IngressService::new(Some("250".to_string()));
    assert!(!service.is_slow_request(249));
    assert!(service.is_slow_request(250));
    let service = IngressService::new(Some("abc".to_string()));
    assert!(service.is_slow_request(1000));
    assert!(!service.is_slow_request(999));
}

#[test]
fn ingress_error_responses() {
    let (s, m) = IngressError::InvalidRequest("Prompt cannot be empty".to_string()).response_parts();
    assert_eq!((s, m.as_str()), (400, "Prompt cannot be empty"));
    let (s, m) = IngressError::AuthenticationRequired.response_parts();
    assert_eq!((s, m.as_str()), (401, "Authentication is required to access this resource."));
    let (s, m) = IngressError::AuthorizationFailed.response_parts();
    assert_eq!((s, m.as_str()), (403, "You do not have permission to perform this operation."));
    for e in [
        IngressError::ContextRetrievalFailed,
        IngressError::RequestOrchestrationFailed,
        IngressError::ResponseAggregationFailed,
        IngressError::ContextUpdateFailed,
        IngressError::ExecutionFailed(ExecutorError::NoVendorsConfigured),
    ] {
        let (s, m) = e.response_parts();
        assert_eq!((s, m.as_str()), (500, "An internal error occurred while processing your request."));
    }
    let converted: IngressError = ExecutorError::TimeoutError(5).into();
    assert!(matches!(converted, IngressError::ExecutionFailed(ExecutorError::TimeoutError(5))));
}

#[test]
fn app_error_delegates_to_feature_errors() {
    let (s, m) = AppError::from(HealthError::SystemStatusCheckFailed).response_parts();
    assert_eq!((s, m.as_str()), (503, "Health check failed - service temporarily unavailable."));
    let (s, _) = AppError::from(IngressError::AuthorizationFailed).response_parts();
    assert_eq!(s, 403);
}

#[test]
fn mock_llm_execution_names_prompt_and_model() {
    let plan = RoutePlan::single("openai", "gpt-4");
    let r = MockDataProvider::get_mock_llm_execution(&plan, Some("Hi"), 0.025f64);
    assert_eq!(r.ai_response, "This is a mock AI response for: 'Hi' using model: gpt-4");
    assert_eq!(r.model_used, "gpt-4");
    assert_eq!(r.actual_cost, 0.025);

    let d = MockDataProvider::get_mock_llm_execution(&plan, None, 0.025f64);
    assert_eq!(d.ai_response, "This is a mock AI response for: 'default prompt' using model: gpt-4");
}

#[test]
fn default_cache_lifetime_is_ten_seconds_in_nanoseconds() {
    let ctx = RequestContext::new("req-ns".to_string(), None);
    let mut repository = IngressRepository::new();
    repository.get_context("u", &ctx, 0).expect("ok");
    repository.get_context("v", &ctx, 9_999_999_999).expect("ok");
    // "u" is still fresh just before ten seconds, so "v" was added beside it.
    assert_eq!(repository.cached_count(), 2);
    repository.get_context("w", &ctx, 10_000_000_000).expect("ok");
    // At ten seconds "u" is stale and dropped on the miss for "w".
    assert!(!repository.is_cached("u"));
    assert!(repository.is_cached("v"));
    assert!(repository.is_cached("w"));
}
