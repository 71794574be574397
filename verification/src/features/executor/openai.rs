//! The decisions of the OpenAI vendor around its HTTP calls: which model it
//! serves, how an HTTP answer becomes an execution result or an error, and
//! what a health check answer means. The calls themselves, the JSON bodies
//! and the cost (a floating-point number) are the application's.

use super::error::{ExecutorError, ExecutorErrorView};
use super::models::ExecutionResult;
use vstd::prelude::*;
use vstd::string::*;

verus! {

/// A 2xx HTTP status.
pub open spec fn is_success_status(status: u16) -> bool {
    200 <= status && status <= 299
}

/// The message of a failed chat call: the status as displayed (code and
/// reason) and the body of the answer.
pub open spec fn api_error_text(status_text: Seq<char>, body: Seq<char>) -> Seq<char> {
    "OpenAI API error "@ + status_text + ": "@ + body
}

/// The message of a chat answer without choices.
pub open spec fn no_choices_text() -> Seq<char> {
    "No choices in response"@
}

/// The message of a failed health check.
pub open spec fn health_error_text(status_text: Seq<char>) -> Seq<char> {
    "OpenAI health check failed: "@ + status_text
}

/// Whether the vendor serves `model`, given the models it is configured
/// with; a model it does not serve is refused as `UnsupportedModel` with the
/// vendor `openai` first and the model second.
pub fn openai_check_model(models: &Vec<String>, model: &str) -> (r: Result<(), ExecutorError>)
    ensures
        models.deep_view().contains(model@) ==> r is Ok,
        !models.deep_view().contains(model@) ==> (r matches Err(e) && e@
            == ExecutorErrorView::UnsupportedModel("openai"@, model@)),
{
    proof {
        reveal_strlit("openai");
    }
    let mut i: usize = 0;
    while i < models.len()
        invariant
            i <= models@.len(),
            forall|j: int| 0 <= j < i ==> models@[j]@ != model@,
        decreases models@.len() - i,
    {
        if crate::text::same_text(models[i].as_str(), model) {
            proof {
                assert(models.deep_view()[i as int] == model@);
            }
            return Ok(());
        }
        i = i + 1;
    }
    proof {
        assert forall|j: int| 0 <= j < models.deep_view().len() implies models.deep_view()[j]
            != model@ by {
            assert(models.deep_view()[j] == models@[j]@);
        }
    }
    Err(ExecutorError::UnsupportedModel(String::from_str("openai"), model.to_string()))
}

/// The outcome of a chat call for `model`, given the HTTP status (`status`,
/// displayed as `status_text`), the body read on failure (`body`), the
/// `(content, finish_reason)` of each choice, the token usage and the cost
/// computed for it: a status that is not 2xx fails with the status and
/// body; an answer without choices fails; otherwise the first choice is the
/// result.
pub fn openai_outcome<C>(
    model: &str,
    status: u16,
    status_text: &str,
    body: &str,
    choices: Vec<(String, String)>,
    usage: (i64, i64),
    cost: C,
) -> (r: Result<ExecutionResult<C>, ExecutorError>)
    ensures
        !is_success_status(status) ==> (r matches Err(e) && e@ == ExecutorErrorView::ApiCallFailed(
            api_error_text(status_text@, body@),
        )),
        is_success_status(status) && choices@.len() == 0 ==> (r matches Err(e) && e@
            == ExecutorErrorView::ApiCallFailed(no_choices_text())),
        is_success_status(status) && choices@.len() > 0 ==> (r matches Ok(res) && res.content@
            == choices@[0].0@ && res.finish_reason@ == choices@[0].1@ && res.model_used@ == model@
            && res.prompt_tokens == usage.0 && res.completion_tokens == usage.1 && res.total_cost
            == cost),
{
    proof {
        reveal_strlit("OpenAI API error ");
        reveal_strlit(": ");
        reveal_strlit("No choices in response");
    }
    if !(200 <= status && status <= 299) {
        let mut m = String::from_str("OpenAI API error ");
        m.append(status_text);
        m.append(": ");
        m.append(body);
        return Err(ExecutorError::ApiCallFailed(m));
    }
    if choices.len() == 0 {
        return Err(ExecutorError::ApiCallFailed(String::from_str("No choices in response")));
    }
    let mut choices = choices;
    let (content, finish_reason) = choices.swap_remove(0);
    Ok(
        ExecutionResult {
            content,
            model_used: model.to_string(),
            prompt_tokens: usage.0,
            completion_tokens: usage.1,
            total_cost: cost,
            finish_reason,
        },
    )
}

/// The outcome of a health check, given its HTTP status (`status`,
/// displayed as `status_text`): healthy on 2xx, refused credentials on 401,
/// a failure naming the status otherwise.
pub fn openai_health_outcome(status: u16, status_text: &str) -> (r: Result<(), ExecutorError>)
    ensures
        is_success_status(status) ==> r is Ok,
        status == 401 ==> (r matches Err(e) && e@ == ExecutorErrorView::AuthenticationFailed(
            "openai"@,
        )),
        !is_success_status(status) && status != 401 ==> (r matches Err(e) && e@
            == ExecutorErrorView::ApiCallFailed(health_error_text(status_text@))),
{
    proof {
        reveal_strlit("openai");
        reveal_strlit("OpenAI health check failed: ");
    }
    if 200 <= status && status <= 299 {
        Ok(())
    } else if status == 401 {
        Err(ExecutorError::AuthenticationFailed(String::from_str("openai")))
    } else {
        let mut m = String::from_str("OpenAI health check failed: ");
        m.append(status_text);
        Err(ExecutorError::ApiCallFailed(m))
    }
}

/// The error for a call that failed before an HTTP answer arrived: a
/// timeout (after `timeout_ms` milliseconds) when the call timed out,
/// otherwise a network error when the connection or the request failed,
/// otherwise a generic API failure; `message` describes the failure.
pub fn transport_error(
    timed_out: bool,
    connection_failed: bool,
    message: String,
    timeout_ms: u64,
) -> (e: ExecutorError)
    ensures
        timed_out ==> e@ == ExecutorErrorView::TimeoutError(timeout_ms),
        !timed_out && connection_failed ==> e@ == ExecutorErrorView::NetworkError(message@),
        !timed_out && !connection_failed ==> e@ == ExecutorErrorView::ApiCallFailed(message@),
{
    if timed_out {
        ExecutorError::TimeoutError(timeout_ms)
    } else if connection_failed {
        ExecutorError::NetworkError(message)
    } else {
        ExecutorError::ApiCallFailed(message)
    }
}

} // verus!
