//! Subscriber-ingestion pipeline: domain validation of untrusted form input,
//! the handler decision logic, and construction of the record that is
//! persisted for each accepted subscriber.

pub mod domain;
pub mod outcome;
pub mod persistence;
pub mod subscriptions;
