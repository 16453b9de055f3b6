//! A minimal persistent-state ledger unit.
//!
//! The ledger keeps a single 256-bit counter, a follower-count registry and a
//! fee-threshold registry, both keyed by an external identity.  A paid
//! registration operation is guarded by the fee threshold and records an
//! append-only event on success.  All arithmetic wraps modulo 2^256.

pub mod address;
pub mod contract;
pub mod laws;
pub mod model;
pub mod registry;
pub mod u256;
