//! Primitives shared by every feature.

pub mod contracts;
pub mod clock;
pub mod correlation;
pub mod error;
