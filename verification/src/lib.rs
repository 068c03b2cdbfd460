//! Credential-and-key rotation client library for a rate-limited, key-gated
//! REST API.
//!
//! The crate owns the account pool, the round-robin rotation cursor that hands
//! out bearer tokens, the key-validity filter applied after each refresh, the
//! cursor-based pagination builder, and the tag-string helpers. Network
//! transport is left to the caller; everything here is pure in-memory logic.

pub mod chars;
pub mod dev;
pub mod entities;
pub mod models;
pub mod pagination;
pub mod refresh;
pub mod rotation;
pub mod tags;
pub mod validity;
