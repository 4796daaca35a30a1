//! Requirement evaluation and expectation verification for the unified test format.
//!
//! The crate decides whether a scenario may run against a given environment,
//! compares declared error expectations with an observed error, merges
//! connection-string options and normalizes schema versions.
pub mod entities;
pub mod expect_error;
pub mod options;
pub mod requirement;
pub mod schema;
pub mod schema_version;
pub mod uri;
