//! Decoding of raw blockchain RPC transaction and block data into a
//! normalized, flat representation.
//!
//! Raw RPC data references accounts by integer index into a per-transaction
//! account table assembled from the message's static keys and any addresses
//! loaded through lookup tables. This crate builds that table, resolves every
//! index to a concrete address string (degrading out-of-range indices to
//! sentinel strings rather than failing), and computes block-level aggregates.

pub mod normalize;
pub mod parsed;
pub mod raw;
pub mod sentinel;
pub mod stats;
