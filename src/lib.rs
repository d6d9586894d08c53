//! Endpoint inventory retrieval for a security-dashboard backend: credential
//! resolution, token request shaping, cursor pagination with deduplication by
//! identifier, and a time-boxed, tenant-scoped snapshot cache.
pub mod auth;
pub mod cache;
pub mod credentials;
pub mod fetch;
pub mod http;
pub mod model;
pub mod paths;
