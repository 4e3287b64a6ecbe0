//! Batch ingestion of a cursor-paginated media feed.
//!
//! The library holds the verified core of a two-phase pipeline: exhaustive
//! pagination that accumulates the full item list before any download
//! begins, followed by a bounded-concurrency download stage with per-item
//! failure isolation, deterministic path derivation, and idempotent
//! skip-if-present resumability. Network and filesystem traffic stay in the
//! surrounding application; the library decides what to request and where
//! each byte goes.

pub mod dispatch;
pub mod error;
pub mod item;
pub mod locate;
pub mod outcome;
pub mod paginate;
pub mod plan;
pub mod resume;
pub mod status;
pub mod text;
