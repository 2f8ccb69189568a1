//! The decision engine: one request handled as a state machine.
//!
//! The engine performs no I/O. Each step names the work it waits for (an
//! [`Action`]); whoever drives it performs that work with the store, the
//! origin fetcher or the policy, and hands the answer back as an [`Event`].
//! The work is asked for strictly in order: key, store lookup, keep decision,
//! then either a delete, or the headers, the expiration decision, the body,
//! the clock and a store write.

use crate::cache::{
    expiration_or_default, expiration_time_of, CacheData, CacheError, CacheHitResult,
    CacheKeepPolicy, CacheRequestKey, CacheResponseExpiration,
};
use crate::http::{HTTPRequest, HTTPResponse};
use vstd::prelude::*;

verus! {

/// The answer to the work that an [`Action`] asked for.
pub enum Event<T, E> {
    /// The policy's key for the request.
    Key(CacheRequestKey),
    /// What the store's lookup of the key gave.
    Looked(Result<Option<CacheData<T>>, E>),
    /// The policy's keep decision on the cached record.
    Kept(CacheKeepPolicy),
    /// What the store's delete of the key gave.
    Deleted(Result<(), E>),
    /// The origin's response, headers only (its body is empty).
    Headers(Result<HTTPResponse, E>),
    /// The policy's expiration decision; `None` when there is no such policy.
    Expiration(Option<CacheResponseExpiration<T>>),
    /// The response body, read from the origin.
    Body(Result<Vec<u8>, E>),
    /// The current time, from the policy's clock.
    Clock(T),
    /// What the store's write of the new record gave.
    Stored(Result<(), E>),
}

/// The work the engine waits for, or its final result.
pub enum Action<E> {
    /// Look the key up in the store.
    LookUp(String),
    /// Ask the policy whether to keep the record that [`Handling::record`]
    /// shows, for the request that [`Handling::request`] shows.
    DecideKeep,
    /// Delete the key from the store.
    Evict(String),
    /// Read the origin's response headers for [`Handling::request`].
    ReadHeaders,
    /// Ask the policy how long the headers-only response that
    /// [`Handling::response`] shows may be cached.
    DecideExpiration,
    /// Read the body of the response whose headers were read.
    ReadBody,
    /// Ask the policy's clock for the current time.
    ReadClock,
    /// Write the record that [`Handling::record`] shows under the key.
    Store(String),
    /// Handling is over: the response to serve, if any, and the outcome.
    Finish(Result<(Option<HTTPResponse>, CacheHitResult), CacheError<E>>),
}

/// The state of one request being handled.
pub enum Handling<T> {
    /// Waiting for the key.
    AwaitKey { request: HTTPRequest },
    /// Waiting for the store lookup.
    AwaitRecord { request: HTTPRequest, key: String },
    /// Waiting for the keep decision on the record found.
    AwaitKeep { request: HTTPRequest, key: String, record: CacheData<T> },
    /// Waiting for the store delete.
    AwaitDelete,
    /// Waiting for the origin's headers; `update` marks a refresh of a record.
    AwaitHeaders { request: HTTPRequest, key: String, update: bool },
    /// Waiting for the expiration decision on the headers-only response.
    AwaitExpiration { request: HTTPRequest, key: String, update: bool, head: HTTPResponse },
    /// Waiting for the body, with the expiration decision made.
    AwaitBody {
        request: HTTPRequest,
        key: String,
        update: bool,
        head: HTTPResponse,
        expiration: CacheResponseExpiration<T>,
    },
    /// Waiting for the clock, to stamp the new record.
    AwaitClock {
        request: HTTPRequest,
        key: String,
        update: bool,
        response: HTTPResponse,
        expiration_time: Option<T>,
    },
    /// Waiting for the store write of the new record.
    AwaitStore { update: bool, record: CacheData<T> },
    /// Handling is over.
    Done,
}

/// The final action: a response, if any, with the outcome.
pub open spec fn finish_ok<E>(r: Option<HTTPResponse>, o: CacheHitResult) -> Action<E> {
    Action::Finish(Ok((r, o)))
}

/// The final action: an error.
pub open spec fn finish_err<E>(e: CacheError<E>) -> Action<E> {
    Action::Finish(Err(e))
}

/// The outcome of a completed fetch that was stored.
pub open spec fn stored_outcome(update: bool) -> CacheHitResult {
    if update {
        CacheHitResult::CacheUpdate
    } else {
        CacheHitResult::CacheMiss
    }
}

/// One step of the engine: the state that follows an event, and the action
/// that the engine then waits on.
pub open spec fn next<T, E>(s: Handling<T>, e: Event<T, E>) -> (Handling<T>, Action<E>) {
    match (s, e) {
        (Handling::AwaitKey { request }, Event::Key(k)) => match k {
            CacheRequestKey::NoKey => (Handling::Done, finish_ok(None, CacheHitResult::CacheOff)),
            CacheRequestKey::Key(key) => (
                Handling::AwaitRecord { request, key },
                Action::LookUp(key),
            ),
        },
        (Handling::AwaitRecord { request, key }, Event::Looked(r)) => match r {
            Err(x) => (Handling::Done, finish_err(CacheError::Store(x))),
            Ok(None) => (
                Handling::AwaitHeaders { request, key, update: false },
                Action::ReadHeaders,
            ),
            Ok(Some(record)) => (
                Handling::AwaitKeep { request, key, record },
                Action::DecideKeep,
            ),
        },
        (Handling::AwaitKeep { request, key, record }, Event::Kept(d)) => match d {
            CacheKeepPolicy::Skip => (Handling::Done, finish_ok(None, CacheHitResult::CacheOff)),
            CacheKeepPolicy::Keep => (
                Handling::Done,
                finish_ok(Some(record.http_response), CacheHitResult::CacheHit),
            ),
            CacheKeepPolicy::Evict => (Handling::AwaitDelete, Action::Evict(key)),
            CacheKeepPolicy::Update => (
                Handling::AwaitHeaders { request, key, update: true },
                Action::ReadHeaders,
            ),
        },
        (Handling::AwaitDelete, Event::Deleted(r)) => match r {
            Err(x) => (Handling::Done, finish_err(CacheError::Store(x))),
            Ok(()) => (Handling::Done, finish_ok(None, CacheHitResult::CacheEvict)),
        },
        (Handling::AwaitHeaders { request, key, update }, Event::Headers(r)) => match r {
            Err(x) => (Handling::Done, finish_err(CacheError::Fetch(x))),
            Ok(head) => (
                Handling::AwaitExpiration { request, key, update, head },
                Action::DecideExpiration,
            ),
        },
        (Handling::AwaitExpiration { request, key, update, head }, Event::Expiration(x)) => (
            Handling::AwaitBody { request, key, update, head, expiration: expiration_or_default(x) },
            Action::ReadBody,
        ),
        (Handling::AwaitBody { request, key, update, head, expiration }, Event::Body(r)) => match r {
            Err(x) => (Handling::Done, finish_err(CacheError::Fetch(x))),
            Ok(body) => {
                let response = HTTPResponse { body, ..head };
                match expiration {
                    CacheResponseExpiration::NoCache => (
                        Handling::Done,
                        finish_ok(Some(response), CacheHitResult::CacheOff),
                    ),
                    _ => (
                        Handling::AwaitClock {
                            request,
                            key,
                            update,
                            response,
                            expiration_time: expiration_time_of(expiration),
                        },
                        Action::ReadClock,
                    ),
                }
            },
        },
        (Handling::AwaitClock { request, key, update, response, expiration_time }, Event::Clock(t)) => (
            Handling::AwaitStore {
                update,
                record: CacheData {
                    call_timestamp: t,
                    expiration_time,
                    http_request: request,
                    http_response: response,
                },
            },
            Action::Store(key),
        ),
        (Handling::AwaitStore { update, record }, Event::Stored(r)) => match r {
            Err(x) => (Handling::Done, finish_err(CacheError::Store(x))),
            Ok(()) => (
                Handling::Done,
                finish_ok(Some(record.http_response), stored_outcome(update)),
            ),
        },
        _ => (Handling::Done, finish_err(CacheError::InconsistentCacheState)),
    }
}

/// The request held by a state.
pub open spec fn request_of<T>(s: Handling<T>) -> Option<HTTPRequest> {
    match s {
        Handling::AwaitKey { request } => Some(request),
        Handling::AwaitRecord { request, .. } => Some(request),
        Handling::AwaitKeep { request, .. } => Some(request),
        Handling::AwaitHeaders { request, .. } => Some(request),
        Handling::AwaitExpiration { request, .. } => Some(request),
        Handling::AwaitBody { request, .. } => Some(request),
        Handling::AwaitClock { request, .. } => Some(request),
        _ => None,
    }
}

/// The record held by a state.
pub open spec fn record_of<T>(s: Handling<T>) -> Option<CacheData<T>> {
    match s {
        Handling::AwaitKeep { record, .. } => Some(record),
        Handling::AwaitStore { record, .. } => Some(record),
        _ => None,
    }
}

/// The headers-only response held by a state.
pub open spec fn head_of<T>(s: Handling<T>) -> Option<HTTPResponse> {
    match s {
        Handling::AwaitExpiration { head, .. } => Some(head),
        Handling::AwaitBody { head, .. } => Some(head),
        _ => None,
    }
}

impl<T> Handling<T> {
    /// Starts handling a request; the first work is to derive its key.
    pub fn new(request: HTTPRequest) -> (r: Self)
        ensures
            r == (Handling::<T>::AwaitKey { request }),
    {
        Handling::AwaitKey { request }
    }

    /// The request being handled, until it has gone into a new record.
    pub fn request(&self) -> (r: Option<&HTTPRequest>)
        ensures
            r.is_some() == request_of(*self).is_some(),
            r.is_some() ==> *r.unwrap() == request_of(*self).unwrap(),
    {
        match self {
            Handling::AwaitKey { request } => Some(request),
            Handling::AwaitRecord { request, .. } => Some(request),
            Handling::AwaitKeep { request, .. } => Some(request),
            Handling::AwaitHeaders { request, .. } => Some(request),
            Handling::AwaitExpiration { request, .. } => Some(request),
            Handling::AwaitBody { request, .. } => Some(request),
            Handling::AwaitClock { request, .. } => Some(request),
            _ => None,
        }
    }

    /// The cached record awaiting a keep decision, or the new record
    /// awaiting its store write.
    pub fn record(&self) -> (r: Option<&CacheData<T>>)
        ensures
            r.is_some() == record_of(*self).is_some(),
            r.is_some() ==> *r.unwrap() == record_of(*self).unwrap(),
    {
        match self {
            Handling::AwaitKeep { record, .. } => Some(record),
            Handling::AwaitStore { record, .. } => Some(record),
            _ => None,
        }
    }

    /// The headers-only response from the origin, while the expiration
    /// decision or the body is pending.
    pub fn response(&self) -> (r: Option<&HTTPResponse>)
        ensures
            r.is_some() == head_of(*self).is_some(),
            r.is_some() ==> *r.unwrap() == head_of(*self).unwrap(),
    {
        match self {
            Handling::AwaitExpiration { head, .. } => Some(head),
            Handling::AwaitBody { head, .. } => Some(head),
            _ => None,
        }
    }

    /// Takes the answer to the pending action and returns the next state
    /// with the action it waits on.
    pub fn step<E>(self, e: Event<T, E>) -> (r: (Self, Action<E>))
        ensures
            r == next(self, e),
    {
        match (self, e) {
            (Handling::AwaitKey { request }, Event::Key(k)) => match k {
                CacheRequestKey::NoKey => (
                    Handling::Done,
                    Action::Finish(Ok((None, CacheHitResult::CacheOff))),
                ),
                CacheRequestKey::Key(key) => {
                    let k2 = key.clone();
                    (Handling::AwaitRecord { request, key }, Action::LookUp(k2))
                },
            },
            (Handling::AwaitRecord { request, key }, Event::Looked(r)) => match r {
                Err(x) => (Handling::Done, Action::Finish(Err(CacheError::Store(x)))),
                Ok(None) => (
                    Handling::AwaitHeaders { request, key, update: false },
                    Action::ReadHeaders,
                ),
                Ok(Some(record)) => (
                    Handling::AwaitKeep { request, key, record },
                    Action::DecideKeep,
                ),
            },
            (Handling::AwaitKeep { request, key, record }, Event::Kept(d)) => match d {
                CacheKeepPolicy::Skip => (
                    Handling::Done,
                    Action::Finish(Ok((None, CacheHitResult::CacheOff))),
                ),
                CacheKeepPolicy::Keep => (
                    Handling::Done,
                    Action::Finish(Ok((Some(record.http_response), CacheHitResult::CacheHit))),
                ),
                CacheKeepPolicy::Evict => (Handling::AwaitDelete, Action::Evict(key)),
                CacheKeepPolicy::Update => (
                    Handling::AwaitHeaders { request, key, update: true },
                    Action::ReadHeaders,
                ),
            },
            (Handling::AwaitDelete, Event::Deleted(r)) => match r {
                Err(x) => (Handling::Done, Action::Finish(Err(CacheError::Store(x)))),
                Ok(()) => (
                    Handling::Done,
                    Action::Finish(Ok((None, CacheHitResult::CacheEvict))),
                ),
            },
            (Handling::AwaitHeaders { request, key, update }, Event::Headers(r)) => match r {
                Err(x) => (Handling::Done, Action::Finish(Err(CacheError::Fetch(x)))),
                Ok(head) => (
                    Handling::AwaitExpiration { request, key, update, head },
                    Action::DecideExpiration,
                ),
            },
            (Handling::AwaitExpiration { request, key, update, head }, Event::Expiration(x)) => {
                let expiration = match x {
                    Some(d) => d,
                    None => CacheResponseExpiration::NoCache,
                };
                (Handling::AwaitBody { request, key, update, head, expiration }, Action::ReadBody)
            },
            (
                Handling::AwaitBody { request, key, update, head, expiration },
                Event::Body(r),
            ) => match r {
                Err(x) => (Handling::Done, Action::Finish(Err(CacheError::Fetch(x)))),
                Ok(body) => {
                    let response = head.with_body(body);
                    match expiration {
                        CacheResponseExpiration::NoCache => (
                            Handling::Done,
                            Action::Finish(Ok((Some(response), CacheHitResult::CacheOff))),
                        ),
                        CacheResponseExpiration::CacheWithoutExpirationDate => (
                            Handling::AwaitClock {
                                request,
                                key,
                                update,
                                response,
                                expiration_time: None,
                            },
                            Action::ReadClock,
                        ),
                        CacheResponseExpiration::CacheWithExpirationDate(t) => (
                            Handling::AwaitClock {
                                request,
                                key,
                                update,
                                response,
                                expiration_time: Some(t),
                            },
                            Action::ReadClock,
                        ),
                    }
                },
            },
            (
                Handling::AwaitClock { request, key, update, response, expiration_time },
                Event::Clock(t),
            ) => {
                let record = CacheData {
                    call_timestamp: t,
                    expiration_time,
                    http_request: request,
                    http_response: response,
                };
                (Handling::AwaitStore { update, record }, Action::Store(key))
            },
            (Handling::AwaitStore { update, record }, Event::Stored(r)) => match r {
                Err(x) => (Handling::Done, Action::Finish(Err(CacheError::Store(x)))),
                Ok(()) => {
                    let outcome = if update {
                        CacheHitResult::CacheUpdate
                    } else {
                        CacheHitResult::CacheMiss
                    };
                    (Handling::Done, Action::Finish(Ok((Some(record.http_response), outcome))))
                },
            },
            _ => (Handling::Done, Action::Finish(Err(CacheError::InconsistentCacheState))),
        }
    }
}

} // verus!

verus! {

/// The state reached from `s` once the first `n` events have been taken.
pub open spec fn state_after<T, E>(s: Handling<T>, events: Seq<Event<T, E>>, n: nat) -> Handling<T>
    decreases n,
{
    if n == 0 {
        s
    } else {
        next(state_after(s, events, (n - 1) as nat), events[n - 1]).0
    }
}

/// The action returned on taking event `k`, when the events are taken from `s`
/// in turn.
pub open spec fn action_at<T, E>(s: Handling<T>, events: Seq<Event<T, E>>, k: nat) -> Action<E> {
    next(state_after(s, events, k), events[k as int]).1
}

} // verus!
