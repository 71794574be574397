//! AI API router gateway: the verified core of request authentication,
//! ingress orchestration, LLM execution planning (retries and fallbacks),
//! health reporting and configuration handling.

pub mod common;
pub mod text;
pub mod diagnostics;
pub mod keyed;
pub mod features;
pub mod middleware;
