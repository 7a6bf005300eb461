//! Third-party integrations: the outbound side of Atlas.

pub mod github;
