use vidcache::coordinator::{
    step, CacheReadEvent, Event, FetchEvent, LookupError, Phase,
};
use vidcache::store::{KVStore, StorageError};

/// A provider stub with scripted answers that counts how often it is
/// consulted.
struct StubProvider {
    valid: bool,
    fetch: Result<String, String>,
    validate_calls: u32,
    fetch_calls: u32,
}

impl StubProvider {
    fn new(valid: bool, fetch: Result<&str, &str>) -> StubProvider {
        StubProvider {
            valid,
            fetch: fetch.map(str::to_string).map_err(str::to_string),
            validate_calls: 0,
            fetch_calls: 0,
        }
    }

    fn validate(&mut self) -> bool {
        self.validate_calls += 1;
        self.valid
    }

    fn fetch(&mut self) -> Result<String, String> {
        self.fetch_calls += 1;
        self.fetch.clone()
    }
}

/// Whether the stubbed cache read works or reports a storage failure.
enum ReadBehavior {
    Normal,
    Fail,
}

/// Drives one lookup through the protocol against an in-memory store and
/// a stub provider, doing the outside work each returned phase asks for.
fn resolve(
    store: &mut KVStore,
    provider: &mut StubProvider,
    id: &str,
    ttl: i64,
    now: i64,
    read: ReadBehavior,
) -> Result<String, LookupError> {
    let read_event = match read {
        ReadBehavior::Fail => CacheReadEvent::ReadFailed(StorageError {
            operation: "get".to_string(),
            key: id.to_string(),
        }),
        ReadBehavior::Normal => match store.get(id) {
            Some(kv) => CacheReadEvent::Found(kv),
            None => CacheReadEvent::Absent,
        },
    };
    let mut phase = step(Phase::CheckCache, Event::CacheChecked(read_event), ttl, now);
    loop {
        phase = match phase {
            Phase::CheckCache => unreachable!("a lookup starts past the cache check"),
            Phase::AwaitValidation => {
                let valid = provider.validate();
                step(Phase::AwaitValidation, Event::Validated(valid), ttl, now)
            }
            Phase::AwaitFetch => {
                let event = match provider.fetch() {
                    Ok(doc) => FetchEvent::Fetched(doc),
                    Err(cause) => FetchEvent::FetchFailed(cause),
                };
                step(Phase::AwaitFetch, Event::FetchFinished(event), ttl, now)
            }
            Phase::Populate { document } => {
                store.set_at(id, &document, now);
                step(
                    Phase::Populate { document },
                    Event::PopulateFinished(None),
                    ttl,
                    now,
                )
            }
            Phase::Done { outcome } => return outcome,
        };
    }
}

#[test]
fn hit_path_returns_without_provider_contact() {
    let mut store = KVStore::new();
    store.set_at("abc", "{\"title\":\"X\"}", 0);
    let mut provider = StubProvider::new(true, Ok("{\"title\":\"fresh\"}"));
    let outcome = resolve(&mut store, &mut provider, "abc", 86400, 100, ReadBehavior::Normal);
    assert_eq!(outcome.unwrap(), "{\"title\":\"X\"}");
    assert_eq!(provider.validate_calls, 0);
    assert_eq!(provider.fetch_calls, 0);
}

#[test]
fn miss_then_populate() {
    let mut store = KVStore::new();
    let mut provider = StubProvider::new(true, Ok("{\"title\":\"X\"}"));
    let outcome = resolve(&mut store, &mut provider, "abc", 86400, 7, ReadBehavior::Normal);
    assert_eq!(outcome.unwrap(), "{\"title\":\"X\"}");
    let kv = store.get("abc").expect("the fetched document must be cached");
    assert_eq!(kv.value, "{\"title\":\"X\"}");
    assert_eq!(kv.cached_at, 7);
}

#[test]
fn invalid_identifier_never_writes() {
    let mut store = KVStore::new();
    let mut provider = StubProvider::new(false, Ok("{}"));
    let outcome = resolve(&mut store, &mut provider, "bad", 86400, 0, ReadBehavior::Normal);
    assert!(matches!(outcome, Err(LookupError::InvalidIdentifier)));
    assert!(store.get("bad").is_none());
    assert_eq!(provider.validate_calls, 1);
    assert_eq!(provider.fetch_calls, 0);
}

#[test]
fn read_failure_fails_open() {
    let mut store = KVStore::new();
    let mut provider = StubProvider::new(true, Ok("{\"ok\":true}"));
    let outcome = resolve(&mut store, &mut provider, "abc", 86400, 0, ReadBehavior::Fail);
    assert_eq!(outcome.unwrap(), "{\"ok\":true}");
    assert_eq!(provider.validate_calls, 1);
    assert_eq!(provider.fetch_calls, 1);
}

#[test]
fn origin_unavailable_leaves_cache_alone() {
    let mut store = KVStore::new();
    let mut provider = StubProvider::new(true, Err("connection timed out"));
    let outcome = resolve(&mut store, &mut provider, "abc", 86400, 0, ReadBehavior::Normal);
    match outcome {
        Err(LookupError::OriginUnavailable(cause)) => assert_eq!(cause, "connection timed out"),
        other => panic!("expected OriginUnavailable, got {:?}", other.is_ok()),
    }
    assert!(store.get("abc").is_none());
}

#[test]
fn encode_failure_is_an_internal_error() {
    let phase = step(
        Phase::AwaitFetch,
        Event::FetchFinished(FetchEvent::EncodeFailed),
        86400,
        0,
    );
    match phase {
        Phase::Done { outcome } => {
            assert!(matches!(outcome, Err(LookupError::SerializationFailed)))
        }
        _ => panic!("an encoding failure must end the lookup"),
    }
}

#[test]
fn populate_write_failure_still_returns_the_document() {
    let report = Some(StorageError {
        operation: "set".to_string(),
        key: "abc".to_string(),
    });
    let phase = step(
        Phase::Populate {
            document: "{\"title\":\"X\"}".to_string(),
        },
        Event::PopulateFinished(report),
        86400,
        0,
    );
    match phase {
        Phase::Done { outcome } => assert_eq!(outcome.unwrap(), "{\"title\":\"X\"}"),
        _ => panic!("a finished populate must end the lookup"),
    }
}

#[test]
fn malformed_cached_value_serves_the_null_document() {
    let mut store = KVStore::new();
    store.set_at("abc", "{not json at all", 0);
    let mut provider = StubProvider::new(true, Ok("{}"));
    let outcome = resolve(&mut store, &mut provider, "abc", 86400, 1, ReadBehavior::Normal);
    assert_eq!(outcome.unwrap(), "null");
    assert_eq!(provider.validate_calls, 0);
    assert_eq!(provider.fetch_calls, 0);
}

#[test]
fn well_formed_cached_value_is_served_verbatim() {
    let mut store = KVStore::new();
    store.set_at("abc", "[1,2,3]", 0);
    let mut provider = StubProvider::new(true, Ok("{}"));
    let outcome = resolve(&mut store, &mut provider, "abc", 86400, 1, ReadBehavior::Normal);
    assert_eq!(outcome.unwrap(), "[1,2,3]");
}

#[test]
fn concrete_scenario_over_a_day() {
    let ttl = 86400;
    let doc = "{\"title\":\"X\"}";
    let mut store = KVStore::new();
    let mut provider = StubProvider::new(true, Ok(doc));

    // t = 0: miss, fetch, populate
    let outcome = resolve(&mut store, &mut provider, "abc", ttl, 0, ReadBehavior::Normal);
    assert_eq!(outcome.unwrap(), doc);
    assert_eq!(provider.validate_calls, 1);
    assert_eq!(provider.fetch_calls, 1);
    let kv = store.get("abc").expect("the document must be cached");
    assert_eq!(kv.value, doc);
    assert_eq!(kv.cached_at, 0);

    // t = 100: fresh hit, no provider contact
    let outcome = resolve(&mut store, &mut provider, "abc", ttl, 100, ReadBehavior::Normal);
    assert_eq!(outcome.unwrap(), doc);
    assert_eq!(provider.validate_calls, 1);
    assert_eq!(provider.fetch_calls, 1);

    // t = 90000: stale, the provider is consulted again
    let outcome = resolve(&mut store, &mut provider, "abc", ttl, 90000, ReadBehavior::Normal);
    assert_eq!(outcome.unwrap(), doc);
    assert_eq!(provider.validate_calls, 2);
    assert_eq!(provider.fetch_calls, 2);
    let kv = store.get("abc").expect("the document must be re-cached");
    assert_eq!(kv.cached_at, 90000);
}
