//! A federated-search gateway core: a query is fanned out to a registry of
//! search providers, each answer is bounded by a shared deadline, and the
//! successful answers are merged into one ordered result list.
//!
//! The crate holds the aggregation logic itself: query validation, the
//! per-provider outcome rules, the deadline policy, the registration-order
//! merge and the partial-failure policy. Transport, authentication plumbing
//! and the asynchronous runtime live outside and hand this crate plain values.

pub mod auth;
pub mod engine;
pub mod laws;
pub mod provider;
pub mod query;
pub mod search_service;
