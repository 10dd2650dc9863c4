//! Replay engine for structured observability recordings.
//!
//! A recording is a sequence of records, each carrying a capture-time
//! envelope (timestamp and originating thread) and one of eight payload
//! kinds.  Replaying rebuilds the state that the original process kept
//! only in live memory: interned callsite metadata, backend-assigned
//! span identity, per-thread dispatch order, and wall-clock pacing.

pub mod backend;
pub mod fields;
pub mod laws;
pub mod recording;
pub mod registry;
pub mod replay;
pub mod span_map;
pub mod timing;
