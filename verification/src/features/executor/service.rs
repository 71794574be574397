//! The executor service: vendor registry, configuration, parameter
//! extraction, and the runs that decide retries and fallbacks.

use super::config::ExecutorConfig;
use super::error::{ExecutorError, ExecutorErrorView};
use super::models::{ExecutionParams, RequestPayload};
use super::repository::{ExecutorRepository, VendorEntry};
use super::run::{outcome_view, record_step, ExecutionRun, Step};
use crate::common::contracts::RoutePlan;
use vstd::prelude::*;
use vstd::string::*;

verus! {

/// The message of the error for a payload without usable messages.
pub open spec fn missing_messages_text() -> Seq<char> {
    "Missing or invalid 'messages' field"@
}

/// `r` is what parameter extraction gives for `payload`: the payload's
/// messages (required) and sampling settings, with streaming off unless asked
/// for, or `InvalidPayload` when the messages are missing or invalid.
pub open spec fn extracted<F>(
    payload: RequestPayload<F>,
    r: Result<ExecutionParams<F>, ExecutorError>,
) -> bool {
    match payload.messages {
        None => r matches Err(e) && e@ == ExecutorErrorView::InvalidPayload(
            missing_messages_text(),
        ),
        Some(m) => r matches Ok(p) && p.messages == m && p.temperature == payload.temperature
            && p.max_tokens == payload.max_tokens && p.top_p == payload.top_p && p.stream
            == payload.stream.unwrap_or(false),
    }
}

/// The health of the vendors from the outcomes of their checks, in the
/// order they were checked: healthy when one of them is; otherwise the error
/// of the last vendor checked; `NoVendorsConfigured` when there is none.
pub open spec fn vendors_health_spec(os: Seq<Result<(), ExecutorErrorView>>) -> Result<
    (),
    ExecutorErrorView,
> {
    if exists|i: int| 0 <= i < os.len() && (#[trigger] os[i]) is Ok {
        Ok(())
    } else if os.len() == 0 {
        Err(ExecutorErrorView::NoVendorsConfigured)
    } else {
        os.last()
    }
}

/// The vendors are healthy exactly when one of their checks succeeded,
/// wherever it stands in the list; when all checks failed, the error
/// reported is the last vendor's; without any check, no vendor is
/// configured.
pub proof fn lemma_any_healthy_vendor_suffices(os: Seq<Result<(), ExecutorErrorView>>)
    ensures
        (exists|i: int| 0 <= i < os.len() && #[trigger] os[i] is Ok) ==> vendors_health_spec(os)
            == Ok::<(), ExecutorErrorView>(()),
        (forall|i: int| 0 <= i < os.len() ==> #[trigger] os[i] is Err) && os.len() > 0
            ==> vendors_health_spec(os) == os[os.len() - 1] && vendors_health_spec(os) is Err,
        os.len() == 0 ==> vendors_health_spec(os) == Err::<(), ExecutorErrorView>(
            ExecutorErrorView::NoVendorsConfigured,
        ),
{
    if (forall|i: int| 0 <= i < os.len() ==> #[trigger] os[i] is Err) && os.len() > 0 {
        assert(os[os.len() - 1] is Err);
    }
}

/// Parameter extraction keeps the payload's messages and sampling settings
/// as they are and turns streaming on only when the payload asks for it; a
/// payload without usable messages is refused as `InvalidPayload`, and only
/// such a payload.
pub proof fn lemma_extraction_keeps_the_request<F>(
    payload: RequestPayload<F>,
    r: Result<ExecutionParams<F>, ExecutorError>,
)
    requires
        extracted(payload, r),
    ensures
        (r is Err) == (payload.messages is None),
        r matches Err(e) ==> e@ is InvalidPayload,
        r matches Ok(p) ==> Some(p.messages) == payload.messages && p.temperature
            == payload.temperature && p.max_tokens == payload.max_tokens && p.top_p
            == payload.top_p,
        r matches Ok(p) ==> (p.stream <==> payload.stream == Some(true)),
{
}

/// Executes LLM calls planned by the router: selects vendors, extracts the
/// parameters of a request, and decides retries and fallbacks.
pub struct ExecutorService {
    repository: ExecutorRepository,
    config: ExecutorConfig,
}

impl ExecutorService {
    #[verifier::type_invariant]
    spec fn inv(&self) -> bool {
        self.repository.wf()
    }

    /// The vendor registry, as a map from vendor id to the models served.
    pub closed spec fn vendors(&self) -> Map<Seq<char>, Seq<Seq<char>>> {
        self.repository@
    }

    /// The retry budget on each target.
    pub closed spec fn max_retries(&self) -> u32 {
        self.config.max_retries
    }

    /// The configuration the service was created with.
    pub closed spec fn configuration(&self) -> ExecutorConfig {
        self.config
    }

    /// A service over a given registry and configuration.
    pub fn new(repository: ExecutorRepository, config: ExecutorConfig) -> (s: ExecutorService)
        requires
            repository.wf(),
        ensures
            s.vendors() == repository@,
            s.max_retries() == config.max_retries,
            s.configuration() == config,
    {
        ExecutorService { repository, config }
    }

    /// Creates the service from its configuration, registering every
    /// configured vendor; fails with `NoVendorsConfigured` when there is none.
    pub fn from_config(config: ExecutorConfig) -> (r: Result<ExecutorService, ExecutorError>)
        ensures
            match config.openai {
                Some(o) => r matches Ok(s) && s.vendors() == Map::<
                    Seq<char>,
                    Seq<Seq<char>>,
                >::empty().insert("openai"@, o.supported_models.deep_view()) && s.max_retries()
                    == config.max_retries && s.configuration() == config,
                None => r matches Err(e) && e is NoVendorsConfigured,
            },
    {
        let repository = ExecutorRepository::from_config(&config)?;
        Ok(ExecutorService { repository, config })
    }

    /// Number of registered vendors.
    pub fn vendor_count(&self) -> (n: usize)
        ensures
            n == self.vendors().len(),
    {
        proof {
            use_type_invariant(self);
        }
        self.repository.vendor_count()
    }

    /// The vendor registered under `vendor_id` (ids are case-sensitive), or
    /// `UnsupportedVendor` with that id.
    pub fn get_vendor(&self, vendor_id: &str) -> (r: Result<&VendorEntry, ExecutorError>)
        ensures
            match r {
                Ok(v) => self.vendors().contains_key(vendor_id@) && v.vendor_id@ == vendor_id@
                    && v.supported_models.deep_view() == self.vendors()[vendor_id@],
                Err(e) => !self.vendors().contains_key(vendor_id@) && e@
                    == ExecutorErrorView::UnsupportedVendor(vendor_id@),
            },
    {
        proof {
            use_type_invariant(self);
        }
        self.repository.get_vendor(vendor_id)
    }

    /// Whether another attempt may cure `error`: network errors, timeouts,
    /// rate limits and generic API failures are retried; authentication
    /// failures, invalid payloads and unsupported vendors or models are not.
    pub fn is_retryable_error(error: &ExecutorError) -> (r: bool)
        ensures
            r == error@.is_retryable(),
    {
        error.is_retryable()
    }

    /// Combines the outcomes of the vendors' health checks, in the order the
    /// vendors were checked: healthy as soon as one vendor is, otherwise the
    /// last vendor's error, and `NoVendorsConfigured` without vendors.
    /// Checking may stop at the first healthy vendor.
    pub fn vendors_health(outcomes: &Vec<Result<(), ExecutorError>>) -> (r: Result<(), ExecutorError>)
        ensures
            outcome_view(r) == vendors_health_spec(outcomes@.map_values(
                |o: Result<(), ExecutorError>| outcome_view(o),
            )),
    {
        let ghost os = outcomes@.map_values(|o: Result<(), ExecutorError>| outcome_view(o));
        let mut last = ExecutorError::NoVendorsConfigured;
        let n = outcomes.len();
        let mut i: usize = 0;
        while i < n
            invariant
                n == outcomes@.len(),
                os == outcomes@.map_values(|o: Result<(), ExecutorError>| outcome_view(o)),
                i <= n,
                forall|j: int| 0 <= j < i ==> !(#[trigger] os[j] is Ok),
                i == 0 ==> last@ == ExecutorErrorView::NoVendorsConfigured,
                i > 0 ==> os[i - 1] == Err::<(), ExecutorErrorView>(last@),
            decreases n - i,
        {
            match &outcomes[i] {
                Ok(()) => {
                    assert(os[i as int] is Ok);
                    return Ok(());
                },
                Err(e) => {
                    last = e.clone();
                },
            }
            i = i + 1;
        }
        proof {
            if n > 0 {
                assert(os.last() == os[n - 1]);
            }
        }
        Err(last)
    }

    /// Extracts the execution parameters from a request payload: the
    /// messages are required, the sampling settings are kept when present,
    /// and streaming is off unless asked for.
    pub fn extract_params<F>(payload: RequestPayload<F>) -> (r: Result<
        ExecutionParams<F>,
        ExecutorError,
    >)
        ensures
            extracted(payload, r),
    {
        match payload.messages {
            None => {
                proof { reveal_strlit("Missing or invalid 'messages' field"); }
                Err(
                    ExecutorError::InvalidPayload(
                        String::from_str("Missing or invalid 'messages' field"),
                    ),
                )
            },
            Some(messages) => {
                let stream = match payload.stream {
                    Some(b) => b,
                    None => false,
                };
                Ok(
                    ExecutionParams {
                        messages,
                        temperature: payload.temperature,
                        max_tokens: payload.max_tokens,
                        top_p: payload.top_p,
                        stream,
                    },
                )
            },
        }
    }

    /// Starts the execution of a request: the payload's parameters are
    /// extracted first, and an invalid payload ends the execution with
    /// `InvalidPayload` before any vendor call. Otherwise the run calls the
    /// plan's own target with retries, then its fallback plans in order.
    pub fn execute<T, F>(&self, plan: &RoutePlan, payload: RequestPayload<F>) -> (r: Result<
        (ExecutionParams<F>, ExecutionRun, Step<T>),
        ExecutorError,
    >)
        ensures
            payload.messages is None ==> (r matches Err(e) && e@
                == ExecutorErrorView::InvalidPayload(missing_messages_text())),
            payload.messages is Some ==> (r matches Ok((params, run, step)) && extracted(
                payload,
                Ok::<ExecutionParams<F>, ExecutorError>(params),
            ) && run.wf() && (run@, step@) == super::run::start_step::<T>(
                self.vendors(),
                super::run::RunState {
                    fallbacks: super::run::plan_targets(plan.fallback_plans@),
                    in_fallback: false,
                    index: 0,
                    primary_error: None,
                    target: (plan.vendor_id@, plan.model_id@),
                    attempt: 0,
                    max_retries: self.max_retries() as nat,
                    active: true,
                },
            )),
    {
        proof {
            use_type_invariant(self);
        }
        let params = match Self::extract_params(payload) {
            Ok(p) => p,
            Err(e) => return Err(e),
        };
        let (run, step) = ExecutionRun::start(&self.repository, plan, self.config.max_retries);
        Ok((params, run, step))
    }

    /// Starts calling one target with retries and no fallback.
    pub fn execute_with_retry<T>(&self, vendor_id: &str, model_id: &str) -> (r: (
        ExecutionRun,
        Step<T>,
    ))
        ensures
            r.0.wf(),
            (r.0@, r.1@) == super::run::start_step::<T>(
                self.vendors(),
                super::run::RunState {
                    fallbacks: Seq::empty(),
                    in_fallback: false,
                    index: 0,
                    primary_error: None,
                    target: (vendor_id@, model_id@),
                    attempt: 0,
                    max_retries: self.max_retries() as nat,
                    active: true,
                },
            ),
    {
        proof {
            use_type_invariant(self);
        }
        ExecutionRun::with_retry(&self.repository, vendor_id, model_id, self.config.max_retries)
    }

    /// Starts trying fallback plans after the primary target failed with
    /// `primary_error`.
    pub fn execute_fallbacks<T>(
        &self,
        fallback_plans: &Vec<RoutePlan>,
        primary_error: ExecutorError,
    ) -> (r: (ExecutionRun, Step<T>))
        ensures
            r.0.wf(),
            (r.0@, r.1@) == super::run::move_to_fallback::<T>(
                self.vendors(),
                super::run::RunState {
                    fallbacks: super::run::plan_targets(fallback_plans@),
                    in_fallback: false,
                    index: 0,
                    primary_error: None,
                    target: (Seq::empty(), Seq::empty()),
                    attempt: 0,
                    max_retries: self.max_retries() as nat,
                    active: true,
                },
                0,
                primary_error@,
            ),
    {
        proof {
            use_type_invariant(self);
        }
        ExecutionRun::fallbacks(&self.repository, fallback_plans, primary_error, self.config.max_retries)
    }

    /// Records the outcome of a run's pending vendor call and says what
    /// follows.
    pub fn advance<T>(&self, run: &mut ExecutionRun, outcome: Result<T, ExecutorError>) -> (step: Step<T>)
        requires
            old(run).wf(),
            old(run)@.active,
            super::run::backoff_fits(old(run)@, outcome_view(outcome)),
        ensures
            final(run).wf(),
            (final(run)@, step@) == record_step(self.vendors(), old(run)@, outcome_view(outcome)),
    {
        proof {
            use_type_invariant(self);
        }
        run.record(&self.repository, outcome)
    }
}

} // verus!
