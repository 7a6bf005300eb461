//! Verified core of the Atlas tracker.

pub mod domain;
pub mod error;
pub mod integrations;
pub mod rank;
pub mod text;
