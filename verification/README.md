# gateway

An AI API router gateway. Clients post a prompt to `/api/v1/route`; the
gateway authenticates them, retrieves their conversation context, asks a
router for a plan, executes the plan against LLM vendors with retries and
fallbacks, and answers with the model's response.

## Layout

- `src/` — the library, verified with Verus:
  - `features/auth`: API keys, the development bypass, and the
    authentication decision (`middleware/auth.rs`).
  - `features/executor`: vendor registry, configuration, parameter
    extraction, and `run.rs`, the state machine that decides each vendor
    call, its backoff, the retries and the fallbacks.
  - `features/ingress`: prompt validation, the conversation-context cache
    with its expiry and eviction, and the steps before and after the LLM
    call.
  - `features/health`: liveness and readiness reports and the cache of
    dependency checks.
  - `text.rs`, `keyed.rs`, `diagnostics.rs`: decimal parsing and formatting,
    key-distinct sequences viewed as maps, and log lines to be emitted.
- `app/` — the server: HTTP routing (axum), environment variables, vendor
  HTTP calls (reqwest), the async loop that performs the vendor calls the
  library asks for, and logging.
- `tests/` — tests of the library.
