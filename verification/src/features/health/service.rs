//! Health and readiness decisions, with a cache of dependency checks.
//!
//! Checking the LLM vendors is outside work that the caller performs; this
//! service decides whether a cached result may be used, what to cache, and
//! what to report. Time is read from a monotonic clock by the caller and
//! handed over in nanoseconds.

use super::error::HealthError;
use super::repository::HealthRepository;
use crate::common::clock::{format_rfc3339, is_rfc3339_utc, rfc3339_text, LAST_SECOND_OF_9999};
use crate::features::executor::config::number_or;
use crate::features::executor::error::ExecutorError;
use crate::features::executor::service::ExecutorService;
use crate::text::parse_u64;
use std::sync::Arc;
use vstd::prelude::*;
use vstd::string::*;

verus! {

/// Response of the health endpoint.
#[derive(Debug)]
pub struct HealthResponse {
    /// `healthy` or `unhealthy`.
    pub status: String,
    /// RFC 3339 time of the check.
    pub timestamp: String,
    /// Version of the application.
    pub version: Option<String>,
    /// Seconds since the application started.
    pub uptime_seconds: Option<u64>,
}

/// Status of a dependency.
#[derive(Debug)]
pub struct DependencyStatus {
    /// `healthy` or `unhealthy`.
    pub status: String,
    /// Number of available vendors.
    pub vendor_count: Option<usize>,
    /// Duration of the connectivity check in milliseconds.
    pub latency_ms: Option<u64>,
    /// Why the dependency is unhealthy.
    pub error: Option<String>,
}

/// Response of the readiness endpoint.
#[derive(Debug)]
pub struct ReadinessResponse {
    /// `ready` or `not_ready`.
    pub status: String,
    /// RFC 3339 time of the check.
    pub timestamp: String,
    pub dependencies: DependencyStatus,
}

/// Default timeout of vendor health checks, in seconds.
pub const DEFAULT_HEALTH_TIMEOUT_SECS: u64 = 2;

/// Default lifetime of a cached health result, in seconds.
pub const DEFAULT_HEALTH_CACHE_TTL_SECS: u64 = 5;

/// Health check configuration.
#[derive(Debug)]
pub struct HealthConfig {
    /// Timeout of vendor health checks, in seconds.
    pub timeout: u64,
    /// Lifetime of a cached health result, in seconds.
    pub cache_ttl_secs: u64,
}

impl HealthConfig {
    /// Builds the configuration from the values of `HEALTH_CHECK_TIMEOUT`
    /// and `HEALTH_CHECK_CACHE_TTL_SECS`; unset or malformed values fall back
    /// to two and five seconds.
    pub fn from_env_values(timeout: Option<String>, cache_ttl_secs: Option<String>) -> (c:
        HealthConfig)
        ensures
            c.timeout == number_or(timeout, u64::MAX as int, DEFAULT_HEALTH_TIMEOUT_SECS as int),
            c.cache_ttl_secs == number_or(
                cache_ttl_secs,
                u64::MAX as int,
                DEFAULT_HEALTH_CACHE_TTL_SECS as int,
            ),
    {
        let timeout = match timeout {
            Some(v) => match parse_u64(v.as_str()) {
                Some(n) => n,
                None => DEFAULT_HEALTH_TIMEOUT_SECS,
            },
            None => DEFAULT_HEALTH_TIMEOUT_SECS,
        };
        let cache_ttl_secs = match cache_ttl_secs {
            Some(v) => match parse_u64(v.as_str()) {
                Some(n) => n,
                None => DEFAULT_HEALTH_CACHE_TTL_SECS,
            },
            None => DEFAULT_HEALTH_CACHE_TTL_SECS,
        };
        HealthConfig { timeout, cache_ttl_secs }
    }
}

/// The message reported when the vendors are unavailable; it reveals
/// nothing of the underlying failure.
pub open spec fn dependencies_unavailable_text() -> Seq<char> {
    "Service dependencies unavailable"@
}

/// The message reported when no executor is configured.
pub open spec fn no_executor_text() -> Seq<char> {
    "No executor service configured"@
}

/// A health result with its message taken as text.
pub open spec fn result_view(r: Result<(), String>) -> Result<(), Seq<char>> {
    match r {
        Ok(()) => Ok(()),
        Err(m) => Err(m@),
    }
}

/// The text of an optional string.
pub open spec fn opt_text(o: Option<String>) -> Option<Seq<char>> {
    match o {
        Some(s) => Some(s@),
        None => None,
    }
}

/// Whole seconds elapsed from `at` to `now` (nanoseconds), never negative.
pub open spec fn elapsed_secs(now_ns: u64, at_ns: u64) -> int {
    if now_ns >= at_ns {
        (now_ns - at_ns) / 1_000_000_000
    } else {
        0
    }
}

/// `resp` reports readiness as it follows from the executor's vendor count
/// (`None` without executor) and the dependency check with its latency:
/// ready without executor or after a successful check, not ready with the
/// check's message after a failed one.
pub open spec fn readiness_fits(
    vendors: Option<nat>,
    executor_health: Option<(Result<(), String>, u64)>,
    resp: ReadinessResponse,
) -> bool {
    match vendors {
        None => resp.status@ == "ready"@ && resp.dependencies.status@ == "healthy"@
            && resp.dependencies.vendor_count is None && resp.dependencies.latency_ms is None
            && resp.dependencies.error is None,
        Some(n) => match executor_health {
            Some((Ok(()), latency)) => resp.status@ == "ready"@ && resp.dependencies.status@
                == "healthy"@ && resp.dependencies.vendor_count == Some(n as usize)
                && resp.dependencies.latency_ms == Some(latency) && resp.dependencies.error is None,
            Some((Err(m), latency)) => resp.status@ == "not_ready"@ && resp.dependencies.status@
                == "unhealthy"@ && resp.dependencies.vendor_count == Some(n as usize)
                && resp.dependencies.latency_ms == Some(latency) && resp.dependencies.error == Some(m),
            None => false,
        },
    }
}

/// What a cache holding `c` serves at `now_ns`: the cached result while it
/// is younger than `ttl_secs` whole seconds, nothing otherwise.
pub open spec fn cache_lookup(
    c: Option<(Result<(), Seq<char>>, u64)>,
    now_ns: u64,
    ttl_secs: u64,
) -> Option<Result<(), Seq<char>>> {
    match c {
        Some((res, at)) => if elapsed_secs(now_ns, at) < ttl_secs {
            Some(res)
        } else {
            None
        },
        None => None,
    }
}

/// Failures are never served from the cache. When nothing fresh is cached at
/// time `t`, the vendors are checked at `t`: a failure leaves the cache as it
/// was (see `record_executor_health`), so every later lookup finds nothing
/// fresh and checks again; a success is cached at `t` and served at any later
/// time within the cache lifetime, and not after it.
pub proof fn lemma_only_successes_are_served(
    cached: Option<(Result<(), Seq<char>>, u64)>,
    t: u64,
    now: u64,
    ttl_secs: u64,
)
    requires
        cache_lookup(cached, t, ttl_secs) is None,
        t <= now,
    ensures
        cache_lookup(cached, now, ttl_secs) is None,
        cache_lookup(Some((Ok::<(), Seq<char>>(()), t)), now, ttl_secs) == if elapsed_secs(now, t)
            < ttl_secs {
            Some(Ok::<(), Seq<char>>(()))
        } else {
            None
        },
{
    if let Some((res, at)) = cached {
        if t >= at {
            assert((t - at) / 1_000_000_000 <= (now - at) / 1_000_000_000) by (nonlinear_arith)
                requires
                    t >= at,
                    now >= t,
            ;
        } else if now >= at {
            assert(0 <= (now - at) / 1_000_000_000) by (nonlinear_arith)
                requires
                    now >= at,
            ;
        }
    }
}

/// A health result cached at a time.
#[derive(Debug)]
pub struct CachedHealthResult {
    result: Result<(), String>,
    cached_at_ns: u64,
}

/// Service for health and readiness checks.
pub struct HealthService {
    repository: HealthRepository,
    executor_service: Option<Arc<ExecutorService>>,
    config: HealthConfig,
    health_cache: Option<CachedHealthResult>,
}

impl HealthService {
    /// Only successful dependency checks are ever cached.
    #[verifier::type_invariant]
    spec fn only_successes_cached(&self) -> bool {
        self.health_cache matches Some(c) ==> c.result is Ok
    }

    /// The cached dependency check: its result and when it was cached.
    pub closed spec fn cached(&self) -> Option<(Result<(), Seq<char>>, u64)> {
        match self.health_cache {
            Some(c) => Some((result_view(c.result), c.cached_at_ns)),
            None => None,
        }
    }

    /// The service's configuration.
    pub closed spec fn configuration(&self) -> HealthConfig {
        self.config
    }

    /// The vendor count of the executor, when one is configured.
    pub closed spec fn executor_vendors(&self) -> Option<nat> {
        match self.executor_service {
            Some(e) => Some(e.vendors().len()),
            None => None,
        }
    }

    /// A service without executor and with nothing cached.
    pub fn new(config: HealthConfig) -> (s: HealthService)
        ensures
            s.cached() is None,
            s.configuration() == config,
            s.executor_vendors() is None,
    {
        HealthService {
            repository: HealthRepository::new(),
            executor_service: None,
            config,
            health_cache: None,
        }
    }

    /// A service that checks the vendors of `executor_service`.
    pub fn with_executor(executor_service: Arc<ExecutorService>, config: HealthConfig) -> (s:
        HealthService)
        ensures
            s.cached() is None,
            s.configuration() == config,
            s.executor_vendors() == Some(executor_service.vendors().len()),
    {
        HealthService {
            repository: HealthRepository::new(),
            executor_service: Some(executor_service),
            config,
            health_cache: None,
        }
    }

    /// Whether an executor is configured.
    pub fn has_executor(&self) -> (r: bool)
        ensures
            r == self.executor_vendors() is Some,
    {
        self.executor_service.is_some()
    }

    /// The liveness report with the time of the check as RFC 3339 text
    /// (`timestamp`, `None` when the time could not be written): `healthy`
    /// when the system status is healthy, with the version and the uptime;
    /// without a time the report cannot be assembled.
    pub fn health_response(&self, version: &str, uptime_seconds: u64, timestamp: Option<String>) -> (r:
        Result<HealthResponse, HealthError>)
        ensures
            match timestamp {
                None => r == Err::<HealthResponse, HealthError>(HealthError::HealthAggregationFailed),
                Some(t) => r matches Ok(h) && h.status@ == "healthy"@ && opt_text(h.version) == Some(
                    version@,
                ) && h.uptime_seconds == Some(uptime_seconds) && h.timestamp == t,
            },
    {
        let system_status = self.repository.get_system_status()?;
        let timestamp = match timestamp {
            Some(t) => t,
            None => return Err(HealthError::HealthAggregationFailed),
        };
        proof {
            reveal_strlit("healthy");
            reveal_strlit("unhealthy");
        }
        let status = if system_status.is_healthy {
            String::from_str("healthy")
        } else {
            String::from_str("unhealthy")
        };
        Ok(
            HealthResponse {
                status,
                timestamp,
                version: Some(version.to_string()),
                uptime_seconds: Some(uptime_seconds),
            },
        )
    }

    /// The liveness check at the wall-clock time `now_secs` seconds and
    /// `now_nanos` nanoseconds after the Unix epoch: `healthy`, with that
    /// time as RFC 3339 text, the version and the uptime. A time that chrono
    /// cannot represent fails the check with `HealthAggregationFailed`; every
    /// time from the epoch to the end of the year 9999 is representable.
    pub fn check_health(
        &self,
        version: &str,
        uptime_seconds: u64,
        now_secs: i64,
        now_nanos: u32,
    ) -> (r: Result<HealthResponse, HealthError>)
        ensures
            match rfc3339_text(now_secs, now_nanos) {
                None => r == Err::<HealthResponse, HealthError>(HealthError::HealthAggregationFailed),
                Some(t) => r matches Ok(h) && h.status@ == "healthy"@ && opt_text(h.version) == Some(
                    version@,
                ) && h.uptime_seconds == Some(uptime_seconds) && h.timestamp@ == t
                    && is_rfc3339_utc(t),
            },
            0 <= now_secs <= LAST_SECOND_OF_9999 && now_nanos < 1_000_000_000 ==> r is Ok,
    {
        let timestamp = format_rfc3339(now_secs, now_nanos);
        self.health_response(version, uptime_seconds, timestamp)
    }

    /// The cached dependency check, if one is cached and younger than the
    /// cache lifetime in whole seconds.
    pub fn cached_executor_health(&self, now_ns: u64) -> (r: Option<Result<(), String>>)
        ensures
            self.cached() matches Some((res, _)) ==> res == Ok::<(), Seq<char>>(()),
            r matches Some(x) ==> x is Ok,
            match r {
                Some(x) => cache_lookup(self.cached(), now_ns, self.configuration().cache_ttl_secs)
                    == Some(result_view(x)),
                None => cache_lookup(self.cached(), now_ns, self.configuration().cache_ttl_secs) is None,
            },
    {
        proof {
            use_type_invariant(self);
        }
        match &self.health_cache {
            Some(c) => {
                let age_ns: u64 = if now_ns >= c.cached_at_ns {
                    now_ns - c.cached_at_ns
                } else {
                    0
                };
                if age_ns / 1_000_000_000 < self.config.cache_ttl_secs {
                    Some(
                        match &c.result {
                            Ok(()) => Ok(()),
                            Err(m) => Err(m.clone()),
                        },
                    )
                } else {
                    None
                }
            },
            None => None,
        }
    }

    /// The error when a dependency check is asked of a service without
    /// executor.
    pub fn no_executor_error() -> (m: String)
        ensures
            m@ == no_executor_text(),
    {
        proof { reveal_strlit("No executor service configured"); }
        String::from_str("No executor service configured")
    }

    /// Records the outcome of checking the vendors at time `now_ns`: a
    /// success is cached, a failure is reported as the dependencies being
    /// unavailable and is not cached, so that recovery shows at once.
    pub fn record_executor_health(&mut self, outcome: Result<(), ExecutorError>, now_ns: u64) -> (r:
        Result<(), String>)
        ensures
            final(self).configuration() == old(self).configuration(),
            final(self).executor_vendors() == old(self).executor_vendors(),
            match outcome {
                Ok(()) => r is Ok && final(self).cached() == Some((Ok::<(), Seq<char>>(()), now_ns)),
                Err(_) => r matches Err(m) && m@ == dependencies_unavailable_text()
                    && final(self).cached() == old(self).cached(),
            },
    {
        match outcome {
            Ok(()) => {
                self.health_cache = Some(CachedHealthResult { result: Ok(()), cached_at_ns: now_ns });
                Ok(())
            },
            Err(_) => {
                proof { reveal_strlit("Service dependencies unavailable"); }
                Err(String::from_str("Service dependencies unavailable"))
            },
        }
    }

    /// The readiness report with the time of the check as RFC 3339 text
    /// (`timestamp`, `None` when the time could not be written). Without an
    /// executor the service is ready; otherwise it is ready exactly when the
    /// dependency check (with its latency) succeeded, and reports the vendor
    /// count, the latency and, when not ready, the check's message. Without a
    /// time the report cannot be assembled; with an executor but no check
    /// result the dependencies cannot be validated.
    pub fn readiness_response(
        &self,
        executor_health: Option<(Result<(), String>, u64)>,
        timestamp: Option<String>,
    ) -> (r: Result<ReadinessResponse, HealthError>)
        ensures
            match timestamp {
                None => r == Err::<ReadinessResponse, HealthError>(
                    HealthError::HealthAggregationFailed,
                ),
                Some(t) => if self.executor_vendors() is Some && executor_health is None {
                    r == Err::<ReadinessResponse, HealthError>(
                        HealthError::DependencyValidationFailed,
                    )
                } else {
                    r matches Ok(resp) && resp.timestamp == t && readiness_fits(
                        self.executor_vendors(),
                        executor_health,
                        resp,
                    )
                },
            },
    {
        proof {
            reveal_strlit("ready");
            reveal_strlit("not_ready");
            reveal_strlit("healthy");
            reveal_strlit("unhealthy");
        }
        let timestamp = match timestamp {
            Some(t) => t,
            None => return Err(HealthError::HealthAggregationFailed),
        };
        match &self.executor_service {
            None => Ok(
                ReadinessResponse {
                    status: String::from_str("ready"),
                    timestamp,
                    dependencies: DependencyStatus {
                        status: String::from_str("healthy"),
                        vendor_count: None,
                        latency_ms: None,
                        error: None,
                    },
                },
            ),
            Some(executor) => {
                let vendor_count = executor.vendor_count();
                match executor_health {
                    Some((Ok(()), latency_ms)) => Ok(
                        ReadinessResponse {
                            status: String::from_str("ready"),
                            timestamp,
                            dependencies: DependencyStatus {
                                status: String::from_str("healthy"),
                                vendor_count: Some(vendor_count),
                                latency_ms: Some(latency_ms),
                                error: None,
                            },
                        },
                    ),
                    Some((Err(m), latency_ms)) => Ok(
                        ReadinessResponse {
                            status: String::from_str("not_ready"),
                            timestamp,
                            dependencies: DependencyStatus {
                                status: String::from_str("unhealthy"),
                                vendor_count: Some(vendor_count),
                                latency_ms: Some(latency_ms),
                                error: Some(m),
                            },
                        },
                    ),
                    None => Err(HealthError::DependencyValidationFailed),
                }
            },
        }
    }

    /// The readiness check at the wall-clock time `now_secs` seconds and
    /// `now_nanos` nanoseconds after the Unix epoch: the report of
    /// `readiness_response` with that time as RFC 3339 text. A time that
    /// chrono cannot represent fails the check with
    /// `HealthAggregationFailed`; every time from the epoch to the end of the
    /// year 9999 is representable.
    pub fn check_readiness(
        &self,
        executor_health: Option<(Result<(), String>, u64)>,
        now_secs: i64,
        now_nanos: u32,
    ) -> (r: Result<ReadinessResponse, HealthError>)
        ensures
            match rfc3339_text(now_secs, now_nanos) {
                None => r == Err::<ReadinessResponse, HealthError>(
                    HealthError::HealthAggregationFailed,
                ),
                Some(t) => if self.executor_vendors() is Some && executor_health is None {
                    r == Err::<ReadinessResponse, HealthError>(
                        HealthError::DependencyValidationFailed,
                    )
                } else {
                    r matches Ok(resp) && resp.timestamp@ == t && is_rfc3339_utc(t)
                        && readiness_fits(self.executor_vendors(), executor_health, resp)
                },
            },
            0 <= now_secs <= LAST_SECOND_OF_9999 && now_nanos < 1_000_000_000 && !(
            self.executor_vendors() is Some && executor_health is None) ==> r is Ok,
    {
        let timestamp = format_rfc3339(now_secs, now_nanos);
        self.readiness_response(executor_health, timestamp)
    }
}

} // verus!
