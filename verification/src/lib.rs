//! Incremental transaction synchronization engine for an Ethereum address.
//!
//! Given the set of block numbers whose transactions are already cached, the
//! library computes the minimal missing block ranges, drives a paginated
//! fetch of raw transaction records for those ranges, normalizes the raw
//! records into strongly-typed transaction records, and accumulates the
//! net-new records for the caller to persist.

pub mod errors;
pub mod inputs;
pub mod normalize;
pub mod numeric;
pub mod ranges;
pub mod record;
pub mod request;
pub mod session;
pub mod upstream;
pub mod validators;
