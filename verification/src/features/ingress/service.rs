//! The ingress pipeline around the LLM call: validation, conversation
//! context, payload construction and routing before it; context update and
//! response assembly after it.

use super::constants::{ai_response_role, ai_response_role_text, SLOW_REQUEST_THRESHOLD_MS};
use super::error::IngressError;
use super::mockdata::{mock_context, mock_model, mock_vendor};
use super::repository::{cache_after_miss, entry_fresh, ContextView, IngressRepository};
use crate::common::contracts::RoutePlan;
use crate::common::correlation::RequestContext;
use crate::features::executor::error::ExecutorError;
use crate::features::executor::models::{messages_view, ExecutionResult, Message, RequestPayload};
use crate::features::executor::service::{extracted, ExecutorService};
use crate::features::executor::models::ExecutionParams;
use crate::text::{is_blank, is_blank_text, parse_u64, parse_unsigned};
use vstd::prelude::*;
use vstd::string::*;

verus! {

/// The AI assistant's part of a response.
#[derive(Debug)]
pub struct AIResponse {
    /// Generated content.
    pub content: String,
    /// Role of the message, always `assistant`.
    pub role: String,
    /// Why generation stopped (`stop`, `length`, ...).
    pub finish_reason: Option<String>,
}

/// The response to an AI routing request. `C` is the representation of the
/// cost, which the library carries without reading.
pub struct IngressResponse<C> {
    pub response: AIResponse,
    /// Model that generated the answer.
    pub model_used: String,
    /// Cost of the request.
    pub cost: C,
    /// Total processing time in milliseconds.
    pub processing_time_ms: u64,
}

/// The message of the error for a blank prompt.
pub open spec fn empty_prompt_text() -> Seq<char> {
    "Prompt cannot be empty"@
}

/// The payload built for a prompt: a single user message carrying it.
pub open spec fn prompt_payload<F>(p: RequestPayload<F>, prompt: Seq<char>) -> bool {
    &&& p.messages matches Some(ms) && messages_view(ms@) == seq![("user"@, prompt)]
    &&& p.temperature is None
    &&& p.max_tokens is None
    &&& p.top_p is None
    &&& p.stream is None
}

/// The response assembled from an execution result.
pub open spec fn response_of<C>(
    resp: IngressResponse<C>,
    result: ExecutionResult<C>,
    processing_time_ms: u64,
) -> bool {
    &&& resp.response.content@ == result.content@
    &&& resp.response.role@ == ai_response_role()
    &&& resp.response.finish_reason matches Some(f) && f@ == result.finish_reason@
    &&& resp.model_used@ == result.model_used@
    &&& resp.cost == result.total_cost
    &&& resp.processing_time_ms == processing_time_ms
}

/// Service for ingress request processing.
pub struct IngressService {
    repository: IngressRepository,
    slow_request_threshold_ms: u64,
}

impl IngressService {
    /// The repository of this service.
    pub closed spec fn repo(&self) -> IngressRepository {
        self.repository
    }

    /// The processing time from which a request is slow.
    pub closed spec fn slow_threshold(&self) -> u64 {
        self.slow_request_threshold_ms
    }

    /// A service with a fresh repository; the slow-request threshold comes
    /// from `INGRESS_SLOW_REQUEST_THRESHOLD_MS` and is one second when that
    /// is unset or malformed.
    pub fn new(slow_request_threshold_ms: Option<String>) -> (s: IngressService)
        ensures
            s.repo().wf(),
            s.repo().cache() == Map::<Seq<char>, (ContextView, u64)>::empty(),
            s.slow_threshold() == crate::features::executor::config::number_or(
                slow_request_threshold_ms,
                u64::MAX as int,
                SLOW_REQUEST_THRESHOLD_MS as int,
            ),
    {
        let threshold = match slow_request_threshold_ms {
            Some(t) => match parse_u64(t.as_str()) {
                Some(n) => n,
                None => SLOW_REQUEST_THRESHOLD_MS,
            },
            None => SLOW_REQUEST_THRESHOLD_MS,
        };
        IngressService { repository: IngressRepository::new(), slow_request_threshold_ms: threshold }
    }

    /// The repository, for inspection.
    pub fn repository(&self) -> (r: &IngressRepository)
        ensures
            *r == self.repo(),
    {
        &self.repository
    }

    /// Rejects a prompt that is empty or only white space.
    pub fn validate_prompt(prompt: &str) -> (r: Result<(), IngressError>)
        ensures
            is_blank_text(prompt@) ==> (r matches Err(IngressError::InvalidRequest(m)) && m@
                == empty_prompt_text()),
            !is_blank_text(prompt@) ==> r is Ok,
    {
        if is_blank(prompt) {
            proof { reveal_strlit("Prompt cannot be empty"); }
            Err(IngressError::InvalidRequest(String::from_str("Prompt cannot be empty")))
        } else {
            Ok(())
        }
    }

    /// The execution payload for a prompt: one user message with the prompt
    /// as content, and no sampling settings.
    pub fn build_payload<F>(prompt: &str) -> (p: RequestPayload<F>)
        ensures
            prompt_payload(p, prompt@),
    {
        let mut messages: Vec<Message> = Vec::new();
        messages.push(Message { role: String::from_str("user"), content: prompt.to_string() });
        proof {
            reveal_strlit("user");
            assert(messages_view(messages@) =~= seq![("user"@, prompt@)]);
        }
        RequestPayload {
            messages: Some(messages),
            temperature: None,
            max_tokens: None,
            top_p: None,
            stream: None,
        }
    }

    /// The steps before the LLM call: the user's conversation context is
    /// retrieved (through the cache, at time `now_ns`), the prompt becomes
    /// the payload, and the router picks the plan.
    pub fn prepare_request<F>(
        &mut self,
        prompt: &str,
        user_id: &str,
        request_context: &RequestContext,
        now_ns: u64,
    ) -> (r: Result<(RequestPayload<F>, RoutePlan), IngressError>)
        requires
            old(self).repo().wf(),
        ensures
            final(self).repo().wf(),
            final(self).slow_threshold() == old(self).slow_threshold(),
            final(self).repo().ttl_ns() == old(self).repo().ttl_ns(),
            final(self).repo().max_entries() == old(self).repo().max_entries(),
            ({
                let old_cache = old(self).repo().cache();
                let hit = old_cache.contains_key(user_id@) && entry_fresh(
                    (user_id@, old_cache[user_id@]),
                    now_ns,
                    old(self).repo().ttl_ns(),
                );
                &&& hit ==> final(self).repo().cache() == old_cache
                &&& !hit ==> cache_after_miss(
                    old_cache,
                    final(self).repo().cache(),
                    user_id@,
                    mock_context(),
                    now_ns,
                    old(self).repo().ttl_ns(),
                    old(self).repo().max_entries(),
                )
            }),
            r matches Ok((p, plan)) && prompt_payload(p, prompt@) && plan.vendor_id@
                == mock_vendor() && plan.model_id@ == mock_model() && plan.fallback_plans@.len()
                == 0,
    {
        let context = match self.repository.get_context(user_id, request_context, now_ns) {
            Ok(c) => c,
            Err(_) => return Err(IngressError::ContextRetrievalFailed),
        };
        let payload = Self::build_payload(prompt);
        let route = match self.repository.optimize_route(&payload, &context, request_context) {
            Ok(r) => r,
            Err(_) => return Err(IngressError::RequestOrchestrationFailed),
        };
        Ok((payload, route.optimized_plan))
    }

    /// The steps after the LLM call: a failed execution is reported as
    /// `ExecutionFailed`; a successful one updates the conversation context
    /// (invalidating the user's cached context) and becomes the response.
    pub fn complete_request<C>(
        &mut self,
        prompt: &str,
        user_id: &str,
        request_context: &RequestContext,
        llm_result: Result<ExecutionResult<C>, ExecutorError>,
        processing_time_ms: u64,
    ) -> (r: Result<IngressResponse<C>, IngressError>)
        requires
            old(self).repo().wf(),
        ensures
            final(self).repo().wf(),
            final(self).slow_threshold() == old(self).slow_threshold(),
            final(self).repo().ttl_ns() == old(self).repo().ttl_ns(),
            final(self).repo().max_entries() == old(self).repo().max_entries(),
            match llm_result {
                Err(e) => r == Err::<IngressResponse<C>, IngressError>(
                    IngressError::ExecutionFailed(e),
                ) && final(self).repo().cache() == old(self).repo().cache(),
                Ok(result) => r matches Ok(resp) && response_of(resp, result, processing_time_ms)
                    && final(self).repo().cache() == old(self).repo().cache().remove(user_id@),
            },
    {
        let result = match llm_result {
            Ok(result) => result,
            Err(e) => return Err(IngressError::from(e)),
        };
        match self.repository.update_context(
            user_id,
            prompt,
            result.content.as_str(),
            request_context,
        ) {
            Ok(()) => {},
            Err(_) => return Err(IngressError::ContextUpdateFailed),
        }
        Ok(
            IngressResponse {
                response: AIResponse {
                    content: result.content,
                    role: ai_response_role_text().to_string(),
                    finish_reason: Some(result.finish_reason),
                },
                model_used: result.model_used,
                cost: result.total_cost,
                processing_time_ms,
            },
        )
    }

    /// The prompt to route: marked as rewritten when the request's metadata
    /// asks for a rewrite (the rewrite service itself does not exist yet),
    /// unchanged otherwise.
    pub fn process_prompt(prompt: &str, needs_rewrite: bool) -> (r: String)
        ensures
            r@ == if needs_rewrite {
                super::constants::rewrite_prefix() + " "@ + prompt@
            } else {
                prompt@
            },
    {
        if needs_rewrite {
            let mut r = super::constants::rewrite_prefix_text().to_string();
            r.append(" ");
            r.append(prompt);
            proof { reveal_strlit(" "); }
            r
        } else {
            prompt.to_string()
        }
    }

    /// Whether a request that took `processing_time_ms` is reported as slow.
    pub fn is_slow_request(&self, processing_time_ms: u64) -> (r: bool)
        ensures
            r == (processing_time_ms >= self.slow_threshold()),
    {
        processing_time_ms >= self.slow_request_threshold_ms
    }
}

/// The prompt of a request reaches the executor as a single user message:
/// extracting the execution parameters from the payload built for a prompt
/// succeeds, with that one message, no sampling settings, and no streaming.
pub proof fn lemma_prompt_becomes_single_user_message<F>(
    prompt: Seq<char>,
    payload: RequestPayload<F>,
    r: Result<ExecutionParams<F>, ExecutorError>,
)
    requires
        prompt_payload(payload, prompt),
        extracted(payload, r),
    ensures
        r matches Ok(p) && messages_view(p.messages@) == seq![("user"@, prompt)]
            && p.temperature is None && p.max_tokens is None && p.top_p is None && !p.stream,
{
}

} // verus!
