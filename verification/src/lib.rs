//! Shared building blocks of the courses services: service health state,
//! debug/release helpers, configuration records, error-reporting settings,
//! log-event routing and the courses API handler.

pub mod health;
pub mod text;
pub mod config;
pub mod sentry;
pub mod debug;
pub mod tracing;
pub mod importer;
pub mod courses;
