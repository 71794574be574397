//! Fixed values of the ingress feature.

use vstd::prelude::*;

verus! {

/// Lifetime of a cached conversation context, in seconds.
pub const CONTEXT_CACHE_TTL_SECS: u64 = 10;

/// Largest number of cached conversation contexts.
pub const CONTEXT_CACHE_MAX_ENTRIES: usize = 1000;

/// Processing time from which a request is reported as slow, in
/// milliseconds.
pub const SLOW_REQUEST_THRESHOLD_MS: u64 = 1000;

/// Timeout of the memory service, in milliseconds.
pub const MEMORY_SERVICE_TIMEOUT_MS: u64 = 5000;

/// Timeout of the router service, in milliseconds.
pub const ROUTER_SERVICE_TIMEOUT_MS: u64 = 10000;

/// Timeout of the rewrite service, in milliseconds.
pub const REWRITE_SERVICE_TIMEOUT_MS: u64 = 3000;

/// Shortest accepted prompt, in characters.
pub const MIN_PROMPT_LENGTH: usize = 1;

/// Longest accepted prompt, in characters.
pub const MAX_PROMPT_LENGTH: usize = 4000;

/// Largest accepted metadata size.
pub const MAX_METADATA_SIZE: usize = 1000;

/// Role of the assistant's messages.
pub open spec fn ai_response_role() -> Seq<char> {
    "assistant"@
}

/// The role of the assistant's messages.
pub fn ai_response_role_text() -> (r: &'static str)
    ensures
        r@ == ai_response_role(),
{
    proof { reveal_strlit("assistant"); }
    "assistant"
}

/// Prefix of rewritten prompts.
pub open spec fn rewrite_prefix() -> Seq<char> {
    "[Rewritten]"@
}

/// The prefix of rewritten prompts.
pub fn rewrite_prefix_text() -> (r: &'static str)
    ensures
        r@ == rewrite_prefix(),
{
    proof { reveal_strlit("[Rewritten]"); }
    "[Rewritten]"
}

/// Reason of a completion that ended naturally.
pub const FINISH_REASON_STOP: &'static str = "stop";

/// Reason of a completion cut at the length limit.
pub const FINISH_REASON_LENGTH: &'static str = "length";

/// Reason of a completion stopped by the content filter.
pub const FINISH_REASON_CONTENT_FILTER: &'static str = "content_filter";

/// Model used by default.
pub const DEFAULT_MODEL: &'static str = "gpt-4";

/// Model used for premium requests.
pub const PREMIUM_MODEL: &'static str = "gpt-4-turbo";

} // verus!
