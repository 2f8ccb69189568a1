//! A policy-driven caching layer that decides, request by request, whether to
//! serve from a cache, refresh from the origin, evict a stale entry, or bypass
//! caching altogether.

pub mod cache;
pub mod engine;
pub mod http;
pub mod laws;
