//! Verified core of a cache-aside proxy for video-metadata lookups.
//!
//! The library holds the parts of the proxy that carry real invariants:
//! the key-value cache with its upsert semantics (`store`), the
//! time-to-live freshness rule (`coordinator::is_cache_valid`), the
//! cache-aside retrieval protocol as a state machine (`coordinator`),
//! the administrative gate in front of the bulk clear (`admin`), and the
//! shape of the provider's metadata documents (`provider`).
//!
//! Everything that merely moves bytes in and out of the process — the
//! HTTP routing, the SQLite file behind the persistent store, the
//! network client of the metadata provider — lives outside the library
//! and drives these functions with plain values.

pub mod admin;
mod clock;
pub mod codec;
pub mod coordinator;
pub mod provider;
pub mod store;
