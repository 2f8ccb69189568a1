//! What holds of every run of the engine.

use crate::cache::{
    expiration_or_default, CacheData, CacheHitResult, CacheKeepPolicy,
    CacheRequestKey, CacheResponseExpiration,
};
use crate::engine::{action_at, finish_ok, state_after, Action, Event, Handling};
use crate::http::{HTTPRequest, HTTPResponse};
use vstd::prelude::*;

verus! {

/// Once handling is over, every further event is answered with a final action
/// and leaves it over.
pub proof fn lemma_done_stays<T, E>(s: Handling<T>, events: Seq<Event<T, E>>, m: nat, n: nat)
    requires
        m <= n,
        state_after(s, events, m) is Done,
    ensures
        state_after(s, events, n) is Done,
        n < events.len() ==> action_at(s, events, n) is Finish,
    decreases n - m,
{
    if m < n {
        lemma_done_stays(s, events, m, (n - 1) as nat);
    }
}

/// A request for which the policy derives no key is answered with no response
/// and the cache off, and neither the store nor the origin is asked for anything.
pub proof fn no_key_bypasses_cache<T, E>(request: HTTPRequest, events: Seq<Event<T, E>>)
    requires
        events.len() > 0,
        events[0] == Event::<T, E>::Key(CacheRequestKey::NoKey),
    ensures
        action_at(Handling::AwaitKey { request }, events, 0) == finish_ok::<E>(
            None,
            CacheHitResult::CacheOff,
        ),
        forall|k: nat|
            k < events.len() ==> (#[trigger] action_at(Handling::AwaitKey { request }, events, k)) is Finish,
{
    let s = Handling::<T>::AwaitKey { request };
    assert(state_after(s, events, 1) is Done);
    assert forall|k: nat| k < events.len() implies (#[trigger] action_at(s, events, k)) is Finish by {
        if k > 0 {
            lemma_done_stays(s, events, 1, k);
        }
    }
}

/// The events of a request whose key is found in the store with a record,
/// followed by the given keep decision.
pub open spec fn hit_events<T, E>(
    events: Seq<Event<T, E>>,
    key: String,
    record: CacheData<T>,
    decision: CacheKeepPolicy,
) -> bool {
    &&& events.len() >= 3
    &&& events[0] == Event::<T, E>::Key(CacheRequestKey::Key(key))
    &&& events[1] == Event::<T, E>::Looked(Ok(Some(record)))
    &&& events[2] == Event::<T, E>::Kept(decision)
}

/// On a hit that the policy keeps, the stored response is served exactly as
/// it was stored, and the origin is never asked for anything.
pub proof fn kept_record_is_served<T, E>(
    request: HTTPRequest,
    events: Seq<Event<T, E>>,
    key: String,
    record: CacheData<T>,
)
    requires
        hit_events(events, key, record, CacheKeepPolicy::Keep),
    ensures
        action_at(Handling::AwaitKey { request }, events, 0) == Action::<E>::LookUp(key),
        action_at(Handling::AwaitKey { request }, events, 1) == Action::<E>::DecideKeep,
        action_at(Handling::AwaitKey { request }, events, 2) == finish_ok::<E>(
            Some(record.http_response),
            CacheHitResult::CacheHit,
        ),
        forall|k: nat|
            k < events.len() ==> !((#[trigger] action_at(Handling::AwaitKey { request }, events, k)) is ReadHeaders)
                && !(action_at(Handling::AwaitKey { request }, events, k) is ReadBody),
{
    let s = Handling::<T>::AwaitKey { request };
    assert(state_after(s, events, 1) == Handling::<T>::AwaitRecord { request, key });
    assert(state_after(s, events, 2) == Handling::<T>::AwaitKeep { request, key, record });
    assert(state_after(s, events, 3) is Done);
    assert forall|k: nat| k < events.len() implies !((#[trigger] action_at(s, events, k)) is ReadHeaders)
        && !(action_at(s, events, k) is ReadBody) by {
        if k > 2 {
            lemma_done_stays(s, events, 3, k);
        }
    }
}

/// On a hit that the policy evicts, the store is asked once to delete the
/// derived key, nothing is fetched, and a successful delete ends with no
/// response and the eviction outcome.
pub proof fn evicted_record_is_deleted_once<T, E>(
    request: HTTPRequest,
    events: Seq<Event<T, E>>,
    key: String,
    record: CacheData<T>,
)
    requires
        hit_events(events, key, record, CacheKeepPolicy::Evict),
    ensures
        action_at(Handling::AwaitKey { request }, events, 2) == Action::<E>::Evict(key),
        forall|k: nat|
            k < events.len() && k != 2 ==> !((#[trigger] action_at(Handling::AwaitKey { request }, events, k)) is Evict),
        forall|k: nat|
            k < events.len() ==> !((#[trigger] action_at(Handling::AwaitKey { request }, events, k)) is ReadHeaders)
                && !(action_at(Handling::AwaitKey { request }, events, k) is ReadBody),
        events.len() > 3 && events[3] == Event::<T, E>::Deleted(Ok(())) ==> action_at(
            Handling::AwaitKey { request },
            events,
            3,
        ) == finish_ok::<E>(None, CacheHitResult::CacheEvict),
{
    let s = Handling::<T>::AwaitKey { request };
    assert(state_after(s, events, 0) == s);
    assert(state_after(s, events, 1) == Handling::<T>::AwaitRecord { request, key });
    assert(state_after(s, events, 2) == Handling::<T>::AwaitKeep { request, key, record });
    assert(state_after(s, events, 3) == Handling::<T>::AwaitDelete);
    if events.len() > 3 {
        assert(state_after(s, events, 4) is Done);
    }
    assert forall|k: nat| k < events.len() implies !((#[trigger] action_at(s, events, k)) is ReadHeaders)
        && !(action_at(s, events, k) is ReadBody) && (k != 2 ==> !(action_at(s, events, k) is Evict)) by {
        if k > 3 {
            lemma_done_stays(s, events, 4, k);
        }
    }
}

/// The states in which the origin's headers have been asked for.
pub open spec fn headers_asked<T>(s: Handling<T>) -> bool {
    ||| s is AwaitHeaders
    ||| s is AwaitExpiration
    ||| s is AwaitBody
    ||| s is AwaitClock
    ||| s is AwaitStore
}

proof fn lemma_headers_asked_before<T, E>(
    request: HTTPRequest,
    events: Seq<Event<T, E>>,
    n: nat,
)
    requires
        n <= events.len(),
        headers_asked(state_after(Handling::AwaitKey { request }, events, n)),
    ensures
        exists|j: nat|
            j < n && (#[trigger] action_at(Handling::AwaitKey { request }, events, j)) is ReadHeaders,
    decreases n,
{
    let s = Handling::<T>::AwaitKey { request };
    if n > 0 {
        let m = (n - 1) as nat;
        if headers_asked(state_after(s, events, m)) {
            lemma_headers_asked_before(request, events, m);
            let j = choose|j: nat| j < m && (#[trigger] action_at(s, events, j)) is ReadHeaders;
            assert(action_at(s, events, j) is ReadHeaders);
        } else {
            assert(action_at(s, events, m) is ReadHeaders);
        }
    }
}

/// The body of a response is asked for only after its headers were.
pub proof fn body_read_after_headers<T, E>(
    request: HTTPRequest,
    events: Seq<Event<T, E>>,
    k: nat,
)
    requires
        k < events.len(),
        action_at(Handling::AwaitKey { request }, events, k) is ReadBody,
    ensures
        exists|j: nat|
            j < k && (#[trigger] action_at(Handling::AwaitKey { request }, events, j)) is ReadHeaders,
{
    lemma_headers_asked_before(request, events, k);
}

/// When the expiration decision is not to cache, the store is never asked to
/// write, whether the fetch refreshes a record or not.
pub proof fn uncacheable_response_never_stored<T, E>(
    s: Handling<T>,
    events: Seq<Event<T, E>>,
    k: nat,
    decision: Option<CacheResponseExpiration<T>>,
)
    requires
        k < events.len(),
        state_after(s, events, k) is AwaitExpiration,
        events[k as int] == Event::<T, E>::Expiration(decision),
        expiration_or_default(decision) is NoCache,
    ensures
        forall|j: nat| j < events.len() ==> !((#[trigger] action_at(s, events, j)) is Store),
{
    assert(state_after(s, events, k + 1) is AwaitBody);
    if k + 1 < events.len() {
        assert(state_after(s, events, k + 2) is Done);
    }
    assert forall|j: nat| j < events.len() implies !((#[trigger] action_at(s, events, j)) is Store) by {
        if j > k + 1 {
            lemma_done_stays(s, events, k + 2, j);
        } else if j < k && action_at(s, events, j) is Store {
            assert(state_after(s, events, j + 1) is AwaitStore);
            if j + 1 < k {
                assert(state_after(s, events, j + 2) is Done);
                lemma_done_stays(s, events, j + 2, k);
            }
        }
    }
}

/// A response cached until a time is written to the store in a record whose
/// expiration time is exactly that time, stamped by the clock, holding the
/// request and the response with its body read.
pub proof fn expiration_time_round_trips<T, E>(
    s: Handling<T>,
    events: Seq<Event<T, E>>,
    k: nat,
    request: HTTPRequest,
    key: String,
    update: bool,
    head: HTTPResponse,
    t: T,
    body: Vec<u8>,
    now: T,
)
    requires
        k + 2 < events.len(),
        state_after(s, events, k) == (Handling::<T>::AwaitExpiration { request, key, update, head }),
        events[k as int] == Event::<T, E>::Expiration(
            Some(CacheResponseExpiration::CacheWithExpirationDate(t)),
        ),
        events[k + 1int] == Event::<T, E>::Body(Ok(body)),
        events[k + 2int] == Event::<T, E>::Clock(now),
    ensures
        action_at(s, events, k + 2) == Action::<E>::Store(key),
        state_after(s, events, k + 3) == (Handling::<T>::AwaitStore {
            update,
            record: CacheData {
                call_timestamp: now,
                expiration_time: Some(t),
                http_request: request,
                http_response: HTTPResponse { body, ..head },
            },
        }),
{
    assert(state_after(s, events, k + 1) == (Handling::<T>::AwaitBody {
        request,
        key,
        update,
        head,
        expiration: CacheResponseExpiration::CacheWithExpirationDate(t),
    }));
    assert(state_after(s, events, k + 2) == (Handling::<T>::AwaitClock {
        request,
        key,
        update,
        response: HTTPResponse { body, ..head },
        expiration_time: Some(t),
    }));
}

/// The answers for a request that is looked up, and fetched from the origin,
/// then stamped and stored. `found` is what the store lookup gave; a record
/// found is followed by an update decision.
pub open spec fn fetch_events<T, E>(
    key: String,
    found: Option<CacheData<T>>,
    head: HTTPResponse,
    decision: Option<CacheResponseExpiration<T>>,
    body: Vec<u8>,
    now: T,
) -> Seq<Event<T, E>> {
    let looked = seq![
        Event::<T, E>::Key(CacheRequestKey::Key(key)),
        Event::<T, E>::Looked(Ok(found)),
    ];
    let fetched = seq![
        Event::<T, E>::Headers(Ok(head)),
        Event::<T, E>::Expiration(decision),
        Event::<T, E>::Body(Ok(body)),
        Event::<T, E>::Clock(now),
        Event::<T, E>::Stored(Ok(())),
    ];
    if found is Some {
        looked + seq![Event::<T, E>::Kept(CacheKeepPolicy::Update)] + fetched
    } else {
        looked + fetched
    }
}

/// The answers for a request whose record is found, with the given keep
/// decision, then a successful delete.
pub open spec fn hit_then_delete_events<T, E>(
    key: String,
    record: CacheData<T>,
    decision: CacheKeepPolicy,
) -> Seq<Event<T, E>> {
    seq![
        Event::<T, E>::Key(CacheRequestKey::Key(key)),
        Event::<T, E>::Looked(Ok(Some(record))),
        Event::<T, E>::Kept(decision),
        Event::<T, E>::Deleted(Ok(())),
    ]
}

proof fn lemma_fetch_run<T, E>(
    request: HTTPRequest,
    key: String,
    found: Option<CacheData<T>>,
    head: HTTPResponse,
    decision: Option<CacheResponseExpiration<T>>,
    body: Vec<u8>,
    now: T,
)
    ensures
        ({
            let s = Handling::<T>::AwaitKey { request };
            let ev = fetch_events::<T, E>(key, found, head, decision, body, now);
            let d = if found is Some { 1nat } else { 0nat };
            let update = found is Some;
            let response = HTTPResponse { body, ..head };
            &&& expiration_or_default(decision) is NoCache ==> action_at(s, ev, 4 + d)
                == finish_ok::<E>(Some(response), CacheHitResult::CacheOff)
            &&& !(expiration_or_default(decision) is NoCache) ==> action_at(s, ev, 6 + d)
                == finish_ok::<E>(
                Some(response),
                if update {
                    CacheHitResult::CacheUpdate
                } else {
                    CacheHitResult::CacheMiss
                },
            )
        }),
{
    let s = Handling::<T>::AwaitKey { request };
    let ev = fetch_events::<T, E>(key, found, head, decision, body, now);
    let d: nat = if found is Some { 1nat } else { 0nat };
    let update = found is Some;
    let response = HTTPResponse { body, ..head };
    assert(ev[0] == Event::<T, E>::Key(CacheRequestKey::Key(key)));
    assert(ev[1] == Event::<T, E>::Looked(Ok(found)));
    if found is Some {
        assert(ev[2] == Event::<T, E>::Kept(CacheKeepPolicy::Update));
    }
    assert(ev[2 + d as int] == Event::<T, E>::Headers(Ok(head)));
    assert(ev[3 + d as int] == Event::<T, E>::Expiration(decision));
    assert(ev[4 + d as int] == Event::<T, E>::Body(Ok(body)));
    assert(ev[5 + d as int] == Event::<T, E>::Clock(now));
    assert(ev[6 + d as int] == Event::<T, E>::Stored(Ok(())));
    assert(state_after(s, ev, 0) == s);
    assert(state_after(s, ev, 1) == Handling::<T>::AwaitRecord { request, key });
    if found is Some {
        assert(state_after(s, ev, 2) == Handling::<T>::AwaitKeep {
            request,
            key,
            record: found.unwrap(),
        });
    }
    assert(state_after(s, ev, 2 + d) == Handling::<T>::AwaitHeaders { request, key, update });
    assert(state_after(s, ev, 3 + d) == Handling::<T>::AwaitExpiration {
        request,
        key,
        update,
        head,
    });
    let expiration = expiration_or_default(decision);
    assert(state_after(s, ev, 4 + d) == Handling::<T>::AwaitBody {
        request,
        key,
        update,
        head,
        expiration,
    });
    if !(expiration is NoCache) {
        assert(state_after(s, ev, 5 + d) is AwaitClock);
        assert(state_after(s, ev, 6 + d) is AwaitStore);
    }
}

/// The outcome of each path through the engine: no record and not cacheable
/// gives the cache off; no record and cacheable, a miss; a record updated with
/// a cacheable response, an update; a record updated with a response that is
/// not cacheable, the cache off; a record kept, a hit; a record evicted, an
/// eviction; a record skipped, the cache off.
pub proof fn outcome_table<T, E>(
    request: HTTPRequest,
    key: String,
    record: CacheData<T>,
    head: HTTPResponse,
    cacheable: Option<CacheResponseExpiration<T>>,
    uncacheable: Option<CacheResponseExpiration<T>>,
    body: Vec<u8>,
    now: T,
)
    requires
        !(expiration_or_default(cacheable) is NoCache),
        expiration_or_default(uncacheable) is NoCache,
    ensures
        ({
            let s = Handling::<T>::AwaitKey { request };
            let response = Some(HTTPResponse { body, ..head });
            &&& action_at(s, fetch_events::<T, E>(key, None, head, uncacheable, body, now), 4)
                == finish_ok::<E>(response, CacheHitResult::CacheOff)
            &&& action_at(s, fetch_events::<T, E>(key, None, head, cacheable, body, now), 6)
                == finish_ok::<E>(response, CacheHitResult::CacheMiss)
            &&& action_at(s, fetch_events::<T, E>(key, Some(record), head, cacheable, body, now), 7)
                == finish_ok::<E>(response, CacheHitResult::CacheUpdate)
            &&& action_at(s, fetch_events::<T, E>(key, Some(record), head, uncacheable, body, now), 5)
                == finish_ok::<E>(response, CacheHitResult::CacheOff)
            &&& action_at(s, hit_then_delete_events::<T, E>(key, record, CacheKeepPolicy::Keep), 2)
                == finish_ok::<E>(Some(record.http_response), CacheHitResult::CacheHit)
            &&& action_at(s, hit_then_delete_events::<T, E>(key, record, CacheKeepPolicy::Evict), 3)
                == finish_ok::<E>(None, CacheHitResult::CacheEvict)
            &&& action_at(s, hit_then_delete_events::<T, E>(key, record, CacheKeepPolicy::Skip), 2)
                == finish_ok::<E>(None, CacheHitResult::CacheOff)
        }),
{
    lemma_fetch_run::<T, E>(request, key, None, head, uncacheable, body, now);
    lemma_fetch_run::<T, E>(request, key, None, head, cacheable, body, now);
    lemma_fetch_run::<T, E>(request, key, Some(record), head, cacheable, body, now);
    lemma_fetch_run::<T, E>(request, key, Some(record), head, uncacheable, body, now);
    let s = Handling::<T>::AwaitKey { request };
    let keep = hit_then_delete_events::<T, E>(key, record, CacheKeepPolicy::Keep);
    let evict = hit_then_delete_events::<T, E>(key, record, CacheKeepPolicy::Evict);
    let skip = hit_then_delete_events::<T, E>(key, record, CacheKeepPolicy::Skip);
    kept_record_is_served(request, keep, key, record);
    evicted_record_is_deleted_once(request, evict, key, record);
    assert(hit_events(skip, key, record, CacheKeepPolicy::Skip));
    assert(state_after(s, skip, 0) == s);
    assert(state_after(s, skip, 1) == Handling::<T>::AwaitRecord { request, key });
    assert(state_after(s, skip, 2) == Handling::<T>::AwaitKeep { request, key, record });
}

} // verus!
