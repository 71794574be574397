//! Ingress: validation of AI routing requests, conversation context with
//! its cache, routing, and assembly of the response around the LLM call.
//!
//! The service normalizes the `prompt` of a request into chat `messages`
//! before execution.

pub mod constants;
pub mod error;
pub mod mockdata;
pub mod repository;
pub mod service;
