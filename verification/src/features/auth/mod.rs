//! API key authentication: configuration, the key store, and the decision
//! to admit a request.

pub mod config;
pub mod error;
pub mod mockdata;
pub mod models;
pub mod repository;
pub mod service;
