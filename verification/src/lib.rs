//! Curation engine for a subscription bot over a paginated listing source.
//!
//! The library holds the verified core: listing descriptors and endpoint
//! construction, the per-listing deduplication buffer, the adaptive-backoff
//! polling state machine, per-user aggregation, and the persistent-set models
//! for delivered items and known clients. Network, database and messaging
//! plumbing live outside the library and drive it through plain values.

pub mod aggregator;
pub mod artvault;
pub mod botclient;
pub mod content;
pub mod curator;
pub mod json;
pub mod poller;
pub mod reddit;
pub mod strutil;
pub mod telegram;
pub mod urlparse;
