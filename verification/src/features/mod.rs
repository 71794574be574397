//! Business features: authentication, LLM execution, health and ingress.

pub mod auth;
pub mod executor;
pub mod health;
pub mod ingress;
