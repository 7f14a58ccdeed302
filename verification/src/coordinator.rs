//! The cache-aside retrieval protocol for one identifier lookup.
//!
//! A lookup is a run of a small state machine. The driver performs the
//! outside work — reading the store, asking the provider to validate and
//! fetch, writing the store — and hands each result back as an event;
//! `step` makes every decision and is verified against the transition
//! function `next_phase`:
//!
//! check the cache; on a fresh entry serve it at once; otherwise
//! validate the identifier, failing invalid ones without touching the
//! cache; fetch from the origin, failing unavailable ones without
//! touching the cache; and populate the cache best-effort, returning the
//! fetched document whether or not the write succeeded.

use vstd::prelude::*;
use crate::codec::json_well_formed;
use crate::store::{EntryModel, KeyValue, StorageError, StorageErrorModel};

verus! {

/// Why a lookup failed.
#[derive(Debug)]
pub enum LookupError {
    /// The provider reports the identifier matches no content.
    InvalidIdentifier,
    /// The provider's fetch failed or timed out; carries the cause.
    OriginUnavailable(String),
    /// The fetched document could not be encoded.
    SerializationFailed,
}

/// Mathematical content of a lookup failure.
pub enum LookupErrorModel {
    InvalidIdentifier,
    OriginUnavailable(Seq<char>),
    SerializationFailed,
}

impl View for LookupError {
    type V = LookupErrorModel;

    open spec fn view(&self) -> LookupErrorModel {
        match self {
            LookupError::InvalidIdentifier => LookupErrorModel::InvalidIdentifier,
            LookupError::OriginUnavailable(cause) => LookupErrorModel::OriginUnavailable(cause@),
            LookupError::SerializationFailed => LookupErrorModel::SerializationFailed,
        }
    }
}

/// What reading the cache produced.
pub enum CacheReadEvent {
    /// An entry exists for the key.
    Found(KeyValue),
    /// No entry exists for the key.
    Absent,
    /// The read failed; the protocol fails open and treats it as a miss.
    ReadFailed(StorageError),
}

/// Mathematical content of a cache read.
pub enum CacheReadModel {
    Found(EntryModel),
    Absent,
    ReadFailed(StorageErrorModel),
}

impl View for CacheReadEvent {
    type V = CacheReadModel;

    open spec fn view(&self) -> CacheReadModel {
        match self {
            CacheReadEvent::Found(kv) => CacheReadModel::Found(kv@),
            CacheReadEvent::Absent => CacheReadModel::Absent,
            CacheReadEvent::ReadFailed(e) => CacheReadModel::ReadFailed(e@),
        }
    }
}

/// What the provider's fetch produced.
pub enum FetchEvent {
    /// The serialized document.
    Fetched(String),
    /// The origin failed or timed out; carries the cause.
    FetchFailed(String),
    /// The fetched document could not be encoded for storage or response.
    EncodeFailed,
}

/// Mathematical content of a fetch result.
pub enum FetchModel {
    Fetched(Seq<char>),
    FetchFailed(Seq<char>),
    EncodeFailed,
}

impl View for FetchEvent {
    type V = FetchModel;

    open spec fn view(&self) -> FetchModel {
        match self {
            FetchEvent::Fetched(doc) => FetchModel::Fetched(doc@),
            FetchEvent::FetchFailed(cause) => FetchModel::FetchFailed(cause@),
            FetchEvent::EncodeFailed => FetchModel::EncodeFailed,
        }
    }
}

/// One piece of outside work done, handed back to the protocol.
pub enum Event {
    CacheChecked(CacheReadEvent),
    Validated(bool),
    FetchFinished(FetchEvent),
    /// The best-effort cache write finished; a failure is carried for
    /// logging and never fails the lookup.
    PopulateFinished(Option<StorageError>),
}

/// Mathematical content of an event.
pub enum EventModel {
    CacheChecked(CacheReadModel),
    Validated(bool),
    FetchFinished(FetchModel),
    PopulateFinished(Option<StorageErrorModel>),
}

impl View for Event {
    type V = EventModel;

    open spec fn view(&self) -> EventModel {
        match self {
            Event::CacheChecked(read) => EventModel::CacheChecked(read@),
            Event::Validated(valid) => EventModel::Validated(*valid),
            Event::FetchFinished(f) => EventModel::FetchFinished(f@),
            Event::PopulateFinished(w) => EventModel::PopulateFinished(
                match w {
                    Some(e) => Some(e@),
                    None => None,
                },
            ),
        }
    }
}

/// Where a lookup stands, and what the driver owes it next.
pub enum Phase {
    /// Read the cache for the key.
    CheckCache,
    /// Ask the provider whether the identifier is valid.
    AwaitValidation,
    /// Ask the provider for the document.
    AwaitFetch,
    /// Write the document to the cache, best-effort.
    Populate { document: String },
    /// The lookup is decided.
    Done { outcome: Result<String, LookupError> },
}

/// Mathematical content of a phase.
pub enum PhaseModel {
    CheckCache,
    AwaitValidation,
    AwaitFetch,
    Populate { document: Seq<char> },
    Done { outcome: Result<Seq<char>, LookupErrorModel> },
}

impl View for Phase {
    type V = PhaseModel;

    open spec fn view(&self) -> PhaseModel {
        match self {
            Phase::CheckCache => PhaseModel::CheckCache,
            Phase::AwaitValidation => PhaseModel::AwaitValidation,
            Phase::AwaitFetch => PhaseModel::AwaitFetch,
            Phase::Populate { document } => PhaseModel::Populate { document: document@ },
            Phase::Done { outcome } => PhaseModel::Done {
                outcome: match outcome {
                    Ok(doc) => Ok(doc@),
                    Err(e) => Err(e@),
                },
            },
        }
    }
}

/// An entry is fresh while its write time plus the time-to-live lies
/// strictly in the future.
pub open spec fn fresh_at(cached_at: int, ttl_seconds: int, now: int) -> bool {
    cached_at + ttl_seconds > now
}

/// The freshness rule: a cached entry may be served while
/// `cached_at + ttl_seconds` lies strictly after `now`.
pub fn is_cache_valid(cached_at: i64, ttl_seconds: i64, now: i64) -> (r: bool)
    ensures
        r == fresh_at(cached_at as int, ttl_seconds as int, now as int),
{
    (cached_at as i128) + (ttl_seconds as i128) > (now as i128)
}

/// Which events answer which phase.
pub open spec fn fits(phase: PhaseModel, event: EventModel) -> bool {
    match (phase, event) {
        (PhaseModel::CheckCache, EventModel::CacheChecked(_)) => true,
        (PhaseModel::AwaitValidation, EventModel::Validated(_)) => true,
        (PhaseModel::AwaitFetch, EventModel::FetchFinished(_)) => true,
        (PhaseModel::Populate { .. }, EventModel::PopulateFinished(_)) => true,
        _ => false,
    }
}

/// The transition function of the protocol. `step` is verified to follow
/// it exactly.
pub open spec fn next_phase(
    phase: PhaseModel,
    event: EventModel,
    ttl_seconds: int,
    now: int,
) -> PhaseModel {
    match (phase, event) {
        (PhaseModel::CheckCache, EventModel::CacheChecked(read)) => match read {
            CacheReadModel::Found(entry) => {
                if fresh_at(entry.cached_at, ttl_seconds, now) {
                    if json_well_formed(entry.value) {
                        PhaseModel::Done { outcome: Ok(entry.value) }
                    } else {
                        PhaseModel::Done { outcome: Ok("null"@) }
                    }
                } else {
                    PhaseModel::AwaitValidation
                }
            },
            CacheReadModel::Absent => PhaseModel::AwaitValidation,
            CacheReadModel::ReadFailed(_) => PhaseModel::AwaitValidation,
        },
        (PhaseModel::AwaitValidation, EventModel::Validated(valid)) => {
            if valid {
                PhaseModel::AwaitFetch
            } else {
                PhaseModel::Done { outcome: Err(LookupErrorModel::InvalidIdentifier) }
            }
        },
        (PhaseModel::AwaitFetch, EventModel::FetchFinished(f)) => match f {
            FetchModel::Fetched(doc) => PhaseModel::Populate { document: doc },
            FetchModel::FetchFailed(cause) => PhaseModel::Done {
                outcome: Err(LookupErrorModel::OriginUnavailable(cause)),
            },
            FetchModel::EncodeFailed => PhaseModel::Done {
                outcome: Err(LookupErrorModel::SerializationFailed),
            },
        },
        (PhaseModel::Populate { document }, EventModel::PopulateFinished(_)) => PhaseModel::Done {
            outcome: Ok(document),
        },
        _ => phase,
    }
}

/// Advances one lookup by one decision.
///
/// The driver reads the cache, consults the provider and writes the
/// cache only when the returned phase asks for it; every decision in
/// between is made here. A hit is served verbatim when its text still
/// parses as JSON and as the null document otherwise; a stale or absent
/// entry, like a failed read, leads to validation; an invalid identifier
/// or a failed fetch ends the lookup without a write; and a finished
/// populate returns the fetched document whether or not the write
/// succeeded.
pub fn step(phase: Phase, event: Event, ttl_seconds: i64, now: i64) -> (r: Phase)
    requires
        fits(phase@, event@),
    ensures
        r@ == next_phase(phase@, event@, ttl_seconds as int, now as int),
{
    match (phase, event) {
        (Phase::CheckCache, Event::CacheChecked(read)) => match read {
            CacheReadEvent::Found(entry) => {
                if is_cache_valid(entry.cached_at, ttl_seconds, now) {
                    if crate::codec::is_well_formed_json(entry.value.as_str()) {
                        Phase::Done { outcome: Ok(entry.value) }
                    } else {
                        Phase::Done { outcome: Ok("null".to_owned()) }
                    }
                } else {
                    Phase::AwaitValidation
                }
            },
            CacheReadEvent::Absent => Phase::AwaitValidation,
            CacheReadEvent::ReadFailed(_) => Phase::AwaitValidation,
        },
        (Phase::AwaitValidation, Event::Validated(valid)) => {
            if valid {
                Phase::AwaitFetch
            } else {
                Phase::Done { outcome: Err(LookupError::InvalidIdentifier) }
            }
        },
        (Phase::AwaitFetch, Event::FetchFinished(f)) => match f {
            FetchEvent::Fetched(doc) => Phase::Populate { document: doc },
            FetchEvent::FetchFailed(cause) => Phase::Done {
                outcome: Err(LookupError::OriginUnavailable(cause)),
            },
            FetchEvent::EncodeFailed => Phase::Done {
                outcome: Err(LookupError::SerializationFailed),
            },
        },
        (Phase::Populate { document }, Event::PopulateFinished(_)) => Phase::Done {
            outcome: Ok(document),
        },
        (p, _) => p,
    }
}

/// A fresh hit is served without provider contact: from the cache check,
/// a fresh entry takes the protocol straight to `Done`, so no phase that
/// consults the provider is ever reached on the hit path. The document
/// served is the cached text, or the null document when that text no
/// longer parses.
pub proof fn lemma_hit_needs_no_provider(entry: EntryModel, ttl_seconds: int, now: int)
    requires
        fresh_at(entry.cached_at, ttl_seconds, now),
    ensures
        next_phase(
            PhaseModel::CheckCache,
            EventModel::CacheChecked(CacheReadModel::Found(entry)),
            ttl_seconds,
            now,
        ) == (PhaseModel::Done {
            outcome: Ok(
                if json_well_formed(entry.value) {
                    entry.value
                } else {
                    "null"@
                },
            ),
        }),
{
}

/// Fail-open on a failed cache read: whatever the error, the protocol
/// proceeds exactly as it does on a miss, on to validation.
pub proof fn lemma_read_failure_is_a_miss(error: StorageErrorModel, ttl_seconds: int, now: int)
    ensures
        next_phase(
            PhaseModel::CheckCache,
            EventModel::CacheChecked(CacheReadModel::ReadFailed(error)),
            ttl_seconds,
            now,
        ) == next_phase(
            PhaseModel::CheckCache,
            EventModel::CacheChecked(CacheReadModel::Absent),
            ttl_seconds,
            now,
        ),
        next_phase(
            PhaseModel::CheckCache,
            EventModel::CacheChecked(CacheReadModel::Absent),
            ttl_seconds,
            now,
        ) == PhaseModel::AwaitValidation,
{
}

/// An invalid identifier fails the lookup at once with
/// `InvalidIdentifier`, and the run ends there: the populate phase — the
/// only one in which the store is written — is never reached.
pub proof fn lemma_invalid_identifier_never_writes(ttl_seconds: int, now: int)
    ensures
        next_phase(
            PhaseModel::AwaitValidation,
            EventModel::Validated(false),
            ttl_seconds,
            now,
        ) == (PhaseModel::Done { outcome: Err(LookupErrorModel::InvalidIdentifier) }),
{
}

/// Miss-then-populate: with no entry for the key, a run whose validation
/// and fetch both succeed walks validation, fetch and populate, returns
/// the fetched document whatever the write reported, and the populate
/// write leaves the store mapping the key to exactly that document.
pub proof fn lemma_miss_then_populate(
    store0: Map<Seq<char>, EntryModel>,
    key: Seq<char>,
    doc: Seq<char>,
    write_report: Option<StorageErrorModel>,
    ttl_seconds: int,
    now: int,
)
    requires
        !store0.contains_key(key),
    ensures
        next_phase(
            PhaseModel::CheckCache,
            EventModel::CacheChecked(CacheReadModel::Absent),
            ttl_seconds,
            now,
        ) == PhaseModel::AwaitValidation,
        next_phase(
            PhaseModel::AwaitValidation,
            EventModel::Validated(true),
            ttl_seconds,
            now,
        ) == PhaseModel::AwaitFetch,
        next_phase(
            PhaseModel::AwaitFetch,
            EventModel::FetchFinished(FetchModel::Fetched(doc)),
            ttl_seconds,
            now,
        ) == (PhaseModel::Populate { document: doc }),
        next_phase(
            PhaseModel::Populate { document: doc },
            EventModel::PopulateFinished(write_report),
            ttl_seconds,
            now,
        ) == (PhaseModel::Done { outcome: Ok(doc) }),
        store0.insert(key, (EntryModel { value: doc, cached_at: now }))[key] == (EntryModel {
            value: doc,
            cached_at: now,
        }),
{
}

/// The freshness boundary: an entry written at `t0` with time-to-live
/// `ttl` is fresh strictly before `t0 + ttl` and stale from then on.
pub proof fn lemma_freshness_boundary(t0: int, ttl: int, now: int)
    ensures
        fresh_at(t0, ttl, now) <==> now < t0 + ttl,
{
}

} // verus!
