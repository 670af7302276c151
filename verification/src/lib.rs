//! A per-user task store fronted by a cache-aside layer.
//!
//! Reads prefer the cache and fall back to the source-of-record store;
//! writes invalidate the affected cache entry before mutating the store.
//! The cache is an optimization, never a dependency for correctness:
//! a failing cache degrades every operation to the store alone.

pub mod cache;
pub mod config;
pub mod errors;
pub mod keys;
pub mod laws;
pub mod model;
pub mod repository;
pub mod service;
pub mod store;
