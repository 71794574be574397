//! LLM execution: vendor registry, parameter extraction, and the retry and
//! fallback decisions taken around each vendor call.

pub mod config;
pub mod error;
pub mod models;
pub mod openai;
pub mod repository;
pub mod run;
pub mod service;
