//! An in-memory provenance ledger for physical goods.
//!
//! Products are registered once under a unique identifier, carry an
//! append-only timeline of custody and processing events, and may be mutated
//! only by their current holder. The boundary layer resolves caller
//! identities and timestamps and hands them in as plain values; the library
//! owns the record model and its mutation protocol.

pub mod auth;
pub mod identity;
pub mod laws;
pub mod model;
pub mod store;
pub mod token;
