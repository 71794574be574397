//! Health and readiness reporting.

pub mod error;
pub mod repository;
pub mod service;
