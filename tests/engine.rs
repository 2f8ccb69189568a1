use std::collections::HashMap;

use cache_middleware::cache::{
    CacheData, CacheError, CacheHitResult, CacheKeepPolicy, CacheRequestKey,
    CacheResponseExpiration,
};
use cache_middleware::engine::{Action, Event, Handling};
use cache_middleware::http::{HTTPRequest, HTTPResponse, HttpMethod, HttpVersion};
use url::Url;

type Outcome = Result<(Option<HTTPResponse>, CacheHitResult), CacheError<String>>;

/// The answers a test gives to the engine, and what it saw asked.
struct World {
    store: HashMap<String, CacheData<u64>>,
    key: CacheRequestKey,
    keep: CacheKeepPolicy,
    expiration: Option<CacheResponseExpiration<u64>>,
    origin: HTTPResponse,
    now: u64,
    log: Vec<String>,
}

impl World {
    fn new(key: CacheRequestKey, origin: HTTPResponse) -> World {
        World {
            store: HashMap::new(),
            key,
            keep: CacheKeepPolicy::Keep,
            expiration: None,
            origin,
            now: 1000,
            log: Vec::new(),
        }
    }

    fn calls(&self, what: &str) -> usize {
        self.log.iter().filter(|l| l.starts_with(what)).count()
    }

    fn position(&self, what: &str) -> Option<usize> {
        self.log.iter().position(|l| l.starts_with(what))
    }

    fn handle(&mut self, request: &HTTPRequest) -> Outcome {
        let mut state: Handling<u64> = Handling::new(request.clone());
        self.log.push("key".to_string());
        let mut event: Event<u64, String> = Event::Key(self.key.clone());
        loop {
            let (next, action) = state.step(event);
            state = next;
            event = match action {
                Action::LookUp(key) => {
                    self.log.push(format!("get {}", key));
                    Event::Looked(Ok(self.store.get(&key).cloned()))
                }
                Action::DecideKeep => {
                    assert!(state.record().is_some());
                    self.log.push("keep".to_string());
                    Event::Kept(self.keep)
                }
                Action::Evict(key) => {
                    self.log.push(format!("delete {}", key));
                    self.store.remove(&key);
                    Event::Deleted(Ok(()))
                }
                Action::ReadHeaders => {
                    assert!(state.request().is_some());
                    self.log.push("headers".to_string());
                    let o = self.origin.clone();
                    Event::Headers(Ok(HTTPResponse::new_no_body(
                        o.version, o.url, o.status, o.reason, o.headers,
                    )))
                }
                Action::DecideExpiration => {
                    assert!(state.response().unwrap().body.is_empty());
                    self.log.push("expiration".to_string());
                    Event::Expiration(self.expiration.clone())
                }
                Action::ReadBody => {
                    self.log.push("body".to_string());
                    Event::Body(Ok(self.origin.body.clone()))
                }
                Action::ReadClock => {
                    self.log.push("now".to_string());
                    Event::Clock(self.now)
                }
                Action::Store(key) => {
                    self.log.push(format!("put {}", key));
                    let record = state.record().unwrap().clone();
                    self.store.insert(key, record);
                    Event::Stored(Ok(()))
                }
                Action::Finish(r) => return r,
            };
        }
    }
}

fn request() -> HTTPRequest {
    HTTPRequest::new(
        HttpMethod::Get,
        Url::parse("http://example.com/a?x=1").unwrap(),
        HashMap::new(),
        vec![],
    )
}

fn origin(status: u16) -> HTTPResponse {
    let mut headers = HashMap::new();
    headers.insert("content-type".to_string(), vec!["text/plain".to_string()]);
    HTTPResponse::new_no_body(
        HttpVersion::Http11,
        Url::parse("http://example.com/a?x=1").unwrap(),
        status,
        "OK".to_string(),
        headers,
    )
    .with_body(b"hello".to_vec())
}

fn key_a() -> CacheRequestKey {
    CacheRequestKey::Key("a".to_string())
}

fn stored_record() -> CacheData<u64> {
    let mut response = origin(200);
    response.body = b"cached".to_vec();
    CacheData {
        call_timestamp: 5,
        expiration_time: Some(50),
        http_request: request(),
        http_response: response,
    }
}

#[test]
fn no_key_touches_nothing() {
    let mut w = World::new(CacheRequestKey::NoKey, origin(200));
    w.store.insert("a".to_string(), stored_record());
    let r = w.handle(&request()).unwrap();
    assert_eq!(r, (None, CacheHitResult::CacheOff));
    assert_eq!(w.log, vec!["key".to_string()]);
}

#[test]
fn scenario_a_miss_stores_indefinitely() {
    let mut w = World::new(key_a(), origin(200));
    w.expiration = Some(CacheResponseExpiration::CacheWithoutExpirationDate);
    let (resp, outcome) = w.handle(&request()).unwrap();
    assert_eq!(outcome, CacheHitResult::CacheMiss);
    assert_eq!(resp, Some(origin(200)));
    let rec = w.store.get("a").unwrap();
    assert_eq!(rec.expiration_time, None);
    assert_eq!(rec.call_timestamp, 1000);
    assert_eq!(rec.http_request, request());
    assert_eq!(rec.http_response.body, b"hello".to_vec());
    assert_eq!(w.calls("put a"), 1);
}

#[test]
fn scenario_b_hit_serves_stored_response() {
    let mut w = World::new(key_a(), origin(200));
    w.expiration = Some(CacheResponseExpiration::CacheWithoutExpirationDate);
    w.handle(&request()).unwrap();
    let stored = w.store.get("a").unwrap().http_response.clone();
    w.log.clear();
    w.keep = CacheKeepPolicy::Keep;
    w.origin = origin(500);
    let (resp, outcome) = w.handle(&request()).unwrap();
    assert_eq!(outcome, CacheHitResult::CacheHit);
    assert_eq!(resp, Some(stored));
    assert_eq!(w.calls("headers"), 0);
    assert_eq!(w.calls("body"), 0);
}

#[test]
fn scenario_c_evict_deletes_once() {
    let mut w = World::new(key_a(), origin(200));
    w.store.insert("a".to_string(), stored_record());
    w.keep = CacheKeepPolicy::Evict;
    let r = w.handle(&request()).unwrap();
    assert_eq!(r, (None, CacheHitResult::CacheEvict));
    assert_eq!(w.calls("delete a"), 1);
    assert_eq!(w.calls("delete"), 1);
    assert_eq!(w.calls("headers"), 0);
    assert_eq!(w.calls("body"), 0);
    assert!(w.store.get("a").is_none());
}

#[test]
fn scenario_d_keep_without_record_is_inconsistent() {
    let mut state: Handling<u64> = Handling::new(request());
    let (s, a) = state.step::<String>(Event::Key(key_a()));
    assert!(matches!(a, Action::LookUp(ref k) if k == "a"));
    state = s;
    let (s, a) = state.step::<String>(Event::Looked(Ok(None)));
    assert!(matches!(a, Action::ReadHeaders));
    state = s;
    let (_, a) = state.step::<String>(Event::Kept(CacheKeepPolicy::Keep));
    match a {
        Action::Finish(r) => assert_eq!(r, Err(CacheError::InconsistentCacheState)),
        _ => panic!("expected the engine to finish"),
    }
}

#[test]
fn headers_come_before_body() {
    let mut w = World::new(key_a(), origin(200));
    w.expiration = Some(CacheResponseExpiration::CacheWithExpirationDate(77));
    w.handle(&request()).unwrap();
    let h = w.position("headers").unwrap();
    let e = w.position("expiration").unwrap();
    let b = w.position("body").unwrap();
    assert!(h < e && e < b);
    assert_eq!(w.calls("body"), 1);
}

#[test]
fn no_cache_on_update_never_stores() {
    let mut w = World::new(key_a(), origin(404));
    w.store.insert("a".to_string(), stored_record());
    w.keep = CacheKeepPolicy::Update;
    w.expiration = Some(CacheResponseExpiration::NoCache);
    let (resp, outcome) = w.handle(&request()).unwrap();
    assert_eq!(outcome, CacheHitResult::CacheOff);
    assert_eq!(resp, Some(origin(404)));
    assert_eq!(w.calls("put"), 0);
    assert_eq!(w.store.get("a"), Some(&stored_record()));
}

#[test]
fn missing_expiration_policy_means_no_cache() {
    let mut w = World::new(key_a(), origin(200));
    w.expiration = None;
    let (resp, outcome) = w.handle(&request()).unwrap();
    assert_eq!(outcome, CacheHitResult::CacheOff);
    assert_eq!(resp, Some(origin(200)));
    assert_eq!(w.calls("body"), 1);
    assert_eq!(w.calls("put"), 0);
    assert!(w.store.is_empty());
}

#[test]
fn expiration_date_round_trips() {
    let mut w = World::new(key_a(), origin(200));
    w.expiration = Some(CacheResponseExpiration::CacheWithExpirationDate(123456));
    w.now = 99;
    w.handle(&request()).unwrap();
    let rec = w.store.get("a").unwrap();
    assert_eq!(rec.expiration_time, Some(123456));
    assert_eq!(rec.call_timestamp, 99);
}

#[test]
fn update_with_cacheable_response_overwrites() {
    let mut w = World::new(key_a(), origin(200));
    w.store.insert("a".to_string(), stored_record());
    w.keep = CacheKeepPolicy::Update;
    w.expiration = Some(CacheResponseExpiration::CacheWithExpirationDate(9));
    let (resp, outcome) = w.handle(&request()).unwrap();
    assert_eq!(outcome, CacheHitResult::CacheUpdate);
    assert_eq!(resp, Some(origin(200)));
    let rec = w.store.get("a").unwrap();
    assert_eq!(rec.http_response, origin(200));
    assert_eq!(rec.expiration_time, Some(9));
}

#[test]
fn skip_leaves_cache_alone() {
    let mut w = World::new(key_a(), origin(200));
    w.store.insert("a".to_string(), stored_record());
    w.keep = CacheKeepPolicy::Skip;
    let r = w.handle(&request()).unwrap();
    assert_eq!(r, (None, CacheHitResult::CacheOff));
    assert_eq!(w.calls("headers"), 0);
    assert_eq!(w.calls("delete"), 0);
    assert_eq!(w.store.get("a"), Some(&stored_record()));
}

#[test]
fn outcome_truth_table() {
    let cacheable = Some(CacheResponseExpiration::CacheWithoutExpirationDate);
    let cases: Vec<(bool, CacheKeepPolicy, Option<CacheResponseExpiration<u64>>, CacheHitResult)> = vec![
        (false, CacheKeepPolicy::Keep, None, CacheHitResult::CacheOff),
        (false, CacheKeepPolicy::Keep, cacheable.clone(), CacheHitResult::CacheMiss),
        (true, CacheKeepPolicy::Update, cacheable.clone(), CacheHitResult::CacheUpdate),
        (true, CacheKeepPolicy::Update, Some(CacheResponseExpiration::NoCache), CacheHitResult::CacheOff),
        (true, CacheKeepPolicy::Keep, cacheable.clone(), CacheHitResult::CacheHit),
        (true, CacheKeepPolicy::Evict, cacheable.clone(), CacheHitResult::CacheEvict),
        (true, CacheKeepPolicy::Skip, cacheable.clone(), CacheHitResult::CacheOff),
    ];
    for (has_record, keep, expiration, expected) in cases {
        let mut w = World::new(key_a(), origin(200));
        if has_record {
            w.store.insert("a".to_string(), stored_record());
        }
        w.keep = keep;
        w.expiration = expiration;
        let (_, outcome) = w.handle(&request()).unwrap();
        assert_eq!(outcome, expected);
    }
}

#[test]
fn store_lookup_error_is_passed_on() {
    let state: Handling<u64> = Handling::new(request());
    let (state, _) = state.step::<String>(Event::Key(key_a()));
    let (_, a) = state.step::<String>(Event::Looked(Err("disk".to_string())));
    match a {
        Action::Finish(r) => assert_eq!(r, Err(CacheError::Store("disk".to_string()))),
        _ => panic!("expected the engine to finish"),
    }
}

#[test]
fn fetch_error_is_passed_on() {
    let state: Handling<u64> = Handling::new(request());
    let (state, _) = state.step::<String>(Event::Key(key_a()));
    let (state, _) = state.step::<String>(Event::Looked(Ok(None)));
    let (_, a) = state.step::<String>(Event::Headers(Err("timeout".to_string())));
    match a {
        Action::Finish(r) => assert_eq!(r, Err(CacheError::Fetch("timeout".to_string()))),
        _ => panic!("expected the engine to finish"),
    }
}

#[test]
fn body_error_is_passed_on() {
    let state: Handling<u64> = Handling::new(request());
    let (state, _) = state.step::<String>(Event::Key(key_a()));
    let (state, _) = state.step::<String>(Event::Looked(Ok(None)));
    let (state, _) = state.step::<String>(Event::Headers(Ok(origin(200))));
    let (state, a) = state.step::<String>(Event::Expiration(Some(CacheResponseExpiration::CacheWithoutExpirationDate)));
    assert!(matches!(a, Action::ReadBody));
    let (_, a) = state.step::<String>(Event::Body(Err("reset".to_string())));
    match a {
        Action::Finish(r) => assert_eq!(r, Err(CacheError::Fetch("reset".to_string()))),
        _ => panic!("expected the engine to finish"),
    }
}

#[test]
fn put_error_is_passed_on() {
    let state: Handling<u64> = Handling::new(request());
    let (state, _) = state.step::<String>(Event::Key(key_a()));
    let (state, _) = state.step::<String>(Event::Looked(Ok(None)));
    let (state, _) = state.step::<String>(Event::Headers(Ok(origin(200))));
    let (state, _) = state.step::<String>(Event::Expiration(Some(CacheResponseExpiration::CacheWithoutExpirationDate)));
    let (state, _) = state.step::<String>(Event::Body(Ok(vec![1, 2])));
    let (state, a) = state.step::<String>(Event::Clock(3));
    assert!(matches!(a, Action::Store(ref k) if k == "a"));
    assert_eq!(state.record().unwrap().http_response.body, vec![1, 2]);
    let (_, a) = state.step::<String>(Event::Stored(Err("full".to_string())));
    match a {
        Action::Finish(r) => assert_eq!(r, Err(CacheError::Store("full".to_string()))),
        _ => panic!("expected the engine to finish"),
    }
}

#[test]
fn delete_error_is_passed_on() {
    let state: Handling<u64> = Handling::new(request());
    let (state, _) = state.step::<String>(Event::Key(key_a()));
    let (state, _) = state.step::<String>(Event::Looked(Ok(Some(stored_record()))));
    let (state, a) = state.step::<String>(Event::Kept(CacheKeepPolicy::Evict));
    assert!(matches!(a, Action::Evict(ref k) if k == "a"));
    let (_, a) = state.step::<String>(Event::Deleted(Err("gone".to_string())));
    match a {
        Action::Finish(r) => assert_eq!(r, Err(CacheError::Store("gone".to_string()))),
        _ => panic!("expected the engine to finish"),
    }
}

#[test]
fn finished_engine_answers_inconsistent() {
    let state: Handling<u64> = Handling::new(request());
    let (state, a) = state.step::<String>(Event::Key(CacheRequestKey::NoKey));
    assert!(matches!(a, Action::Finish(Ok((None, CacheHitResult::CacheOff)))));
    assert!(state.request().is_none());
    let (_, a) = state.step::<String>(Event::Clock(1));
    match a {
        Action::Finish(r) => assert_eq!(r, Err(CacheError::InconsistentCacheState)),
        _ => panic!("expected the engine to finish"),
    }
}
