//! Compliance evaluation for pool allocations, and the decisions around
//! obtaining a zero-knowledge proof of an approved outcome.
pub mod text;
pub mod cache;
pub mod lifecycle;
pub mod policy;
pub mod types;
