//! Hybrid retrieval over a key-value cache and a vector index.
//!
//! The cache layer is expressed as plans of store commands whose effect is
//! modelled in `store`; `laws` proves what the plans guarantee. The search
//! layer translates requests into nearest-neighbour queries, and the
//! coordinator decides, per request, between the cache and the vector index.

pub mod error;
pub mod models;
pub mod keys;
pub mod store;
pub mod cache;
pub mod laws;
pub mod search;
pub mod coordinator;
pub mod fingerprint;
pub mod text;
pub mod stats;
pub mod config;
pub mod tools;
