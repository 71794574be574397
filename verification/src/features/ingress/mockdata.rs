//! Stand-in answers of the memory and router services.

use super::repository::{ContextData, LLMExecutionResult, RouterServiceResponse};
use crate::common::contracts::RoutePlan;
use vstd::prelude::*;
use vstd::string::*;

verus! {

/// The user id used where no authenticated user is known.
pub open spec fn mock_user_id() -> Seq<char> {
    "mock_user_123"@
}

/// The stand-in conversation history.
pub open spec fn mock_history() -> Seq<Seq<char>> {
    seq![
        "User: Hello, how are you?"@,
        "Assistant: I'm doing well, thank you for asking!"@,
        "User: Can you help me with a coding question?"@,
        "Assistant: Of course! I'd be happy to help with your coding question."@,
    ]
}

/// The stand-in user preferences.
pub open spec fn mock_preferences() -> Seq<char> {
    "casual tone, detailed explanations, code examples preferred"@
}

/// The stand-in conversation context.
pub open spec fn mock_context() -> (Seq<Seq<char>>, Seq<char>) {
    (mock_history(), mock_preferences())
}

/// The vendor the stand-in router picks.
pub open spec fn mock_vendor() -> Seq<char> {
    "openai"@
}

/// The model the stand-in router picks.
pub open spec fn mock_model() -> Seq<char> {
    "gpt-4"@
}

/// The stand-in router's explanation.
pub open spec fn mock_reason() -> Seq<char> {
    "Selected gpt-4 for best quality"@
}

/// The prompt the stand-in LLM answers when the payload names none.
pub open spec fn default_prompt() -> Seq<char> {
    "default prompt"@
}

/// The stand-in LLM's answer to `prompt` with `model`.
pub open spec fn mock_llm_text(prompt: Seq<char>, model: Seq<char>) -> Seq<char> {
    "This is a mock AI response for: '"@ + prompt + "' using model: "@ + model
}

/// Stand-in answers for the services that ingress depends on.
pub struct MockDataProvider;

impl MockDataProvider {
    /// The user id for development and testing.
    pub fn get_mock_user_id() -> (r: String)
        ensures
            r@ == mock_user_id(),
    {
        proof { reveal_strlit("mock_user_123"); }
        String::from_str("mock_user_123")
    }

    /// The conversation context the memory service would return.
    pub fn get_mock_context() -> (r: ContextData)
        ensures
            r@ == mock_context(),
    {
        let mut history: Vec<String> = Vec::new();
        history.push(String::from_str("User: Hello, how are you?"));
        history.push(String::from_str("Assistant: I'm doing well, thank you for asking!"));
        history.push(String::from_str("User: Can you help me with a coding question?"));
        history.push(
            String::from_str(
                "Assistant: Of course! I'd be happy to help with your coding question.",
            ),
        );
        let prefs = String::from_str("casual tone, detailed explanations, code examples preferred");
        let r = ContextData { conversation_history: history, user_preferences: prefs };
        assert(r.conversation_history.deep_view() =~= mock_history());
        r
    }

    /// The routing decision the router service would return: `gpt-4` at
    /// OpenAI, without fallbacks.
    pub fn get_mock_router_response() -> (r: RouterServiceResponse)
        ensures
            r.optimized_plan.vendor_id@ == mock_vendor(),
            r.optimized_plan.model_id@ == mock_model(),
            r.optimized_plan.fallback_plans@.len() == 0,
            r.optimization_reason@ == mock_reason(),
    {
        proof {
            reveal_strlit("openai");
            reveal_strlit("gpt-4");
            reveal_strlit("Selected gpt-4 for best quality");
        }
        RouterServiceResponse {
            optimized_plan: RoutePlan::single("openai", "gpt-4"),
            optimization_reason: String::from_str("Selected gpt-4 for best quality"),
        }
    }

    /// The answer the LLM would give: a text naming the payload's prompt
    /// (`prompt`, or "default prompt" when the payload has no prompt string)
    /// and the plan's model, produced by that model, at the stand-in's fixed
    /// cost `fixed_cost`.
    pub fn get_mock_llm_execution<C>(plan: &RoutePlan, prompt: Option<&str>, fixed_cost: C) -> (r:
        LLMExecutionResult<C>)
        ensures
            r.ai_response@ == mock_llm_text(
                match prompt {
                    Some(p) => p@,
                    None => default_prompt(),
                },
                plan.model_id@,
            ),
            r.model_used@ == plan.model_id@,
            r.actual_cost == fixed_cost,
    {
        proof {
            reveal_strlit("default prompt");
            reveal_strlit("This is a mock AI response for: '");
            reveal_strlit("' using model: ");
        }
        let p: &str = match prompt {
            Some(p) => p,
            None => "default prompt",
        };
        let mut text = String::from_str("This is a mock AI response for: '");
        text.append(p);
        text.append("' using model: ");
        text.append(plan.model_id.as_str());
        LLMExecutionResult {
            ai_response: text,
            model_used: plan.model_id.clone(),
            actual_cost: fixed_cost,
        }
    }
}

} // verus!
