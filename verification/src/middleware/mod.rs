//! Decisions taken by HTTP middleware.

pub mod auth;
