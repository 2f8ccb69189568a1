//! Cache records, policy decisions and outcomes.

use crate::http::{HTTPRequest, HTTPResponse};
use vstd::prelude::*;

verus! {

/// A record kept in the cache store.
#[derive(Debug, Clone, PartialEq, Eq)]
pub struct CacheData<T> {
    /// When the call was recorded.
    pub call_timestamp: T,
    /// When the record should expire; `None` keeps it indefinitely.
    pub expiration_time: Option<T>,
    /// The request the record was made for.
    pub http_request: HTTPRequest,
    /// The response, with its body fully read.
    pub http_response: HTTPResponse,
}

/// The cache key derived from a request.
#[derive(Debug, Clone, PartialEq, Eq)]
pub enum CacheRequestKey {
    /// The request is not cacheable.
    NoKey,
    /// The key under which the request is cached.
    Key(String),
}

/// What to do with a record found in the cache.
#[derive(Debug, Clone, Copy, PartialEq, Eq, Structural)]
pub enum CacheKeepPolicy {
    /// Leave the cache alone and serve nothing from it.
    Skip,
    /// Serve the cached response as it is.
    Keep,
    /// Fetch from the origin and, if the response may be cached, overwrite
    /// the record.
    Update,
    /// Delete the record.
    Evict,
}

/// How long a freshly fetched response may be cached.
#[derive(Debug, Clone, PartialEq, Eq)]
pub enum CacheResponseExpiration<T> {
    /// Do not cache the response.
    NoCache,
    /// Cache the response with no expiration time.
    CacheWithoutExpirationDate,
    /// Cache the response until the given time.
    CacheWithExpirationDate(T),
}

/// What handling a request did with the cache.
#[derive(Debug, Clone, Copy, PartialEq, Eq, Structural)]
pub enum CacheHitResult {
    /// The cache was bypassed.
    CacheOff,
    /// Nothing was cached; the fetched response has been stored.
    CacheMiss,
    /// The cached response was served.
    CacheHit,
    /// The record was replaced by a freshly fetched response.
    CacheUpdate,
    /// The record was deleted.
    CacheEvict,
}

/// Why handling a request failed.
#[derive(Debug, Clone, PartialEq, Eq)]
pub enum CacheError<E> {
    /// A store operation failed; its error is passed on as it came.
    Store(E),
    /// Reading the headers or the body from the origin failed; its error is
    /// passed on as it came.
    Fetch(E),
    /// A keep decision came while no cached record backs it, or an answer
    /// came that the pending step did not ask for.
    InconsistentCacheState,
}

/// The expiration time that a cacheable decision writes into a record.
pub open spec fn expiration_time_of<T>(e: CacheResponseExpiration<T>) -> Option<T> {
    match e {
        CacheResponseExpiration::CacheWithExpirationDate(t) => Some(t),
        _ => None,
    }
}

/// A missing expiration policy means the response is not cached.
pub open spec fn expiration_or_default<T>(
    e: Option<CacheResponseExpiration<T>>,
) -> CacheResponseExpiration<T> {
    match e {
        Some(x) => x,
        None => CacheResponseExpiration::NoCache,
    }
}

} // verus!
