//! A handle/state-management layer over an append-only CRDT document engine.
//!
//! Callers hold opaque handles to document state cells. A successful mutation
//! freezes the old cell and returns a fresh one; a frozen cell rejects every
//! operation except reading its cached heads, cloning, and disposal.

pub mod cell;
pub mod changes;
pub mod engine;
pub mod errors;

pub use cell::Wrapper;
pub use changes::decode_change;
pub use changes::encode_change;
pub use errors::BackendError;
