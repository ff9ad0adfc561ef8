//! The closed set of failures the synchronization engine can report.

use vstd::prelude::*;

verus! {

/// Why a synchronization attempt failed.
///
/// The first two variants are user-correctable (client errors); the rest are
/// server-side failures.
#[derive(Debug, Clone)]
pub enum SyncError {
    /// The requested address fails format validation.
    InvalidAddress { address: String },
    /// The starting block exceeds the current chain head.
    InvalidRange { starting_block_number: u64, current_block_number: u64 },
    /// Network failure or a non-JSON response from the upstream API.
    UpstreamError,
    /// The page loop against the upstream API exceeded its bound.
    PaginationLimitExceeded,
    /// A required field was absent or a numeric field failed to parse.
    ParsingError,
    /// The persistence collaborator failed.
    StorageError,
}

impl SyncError {
    /// Whether this failure is the caller's fault (a client error) rather
    /// than a server-side one.
    pub fn is_client_error(&self) -> (r: bool)
        ensures
            r == (self is InvalidAddress || self is InvalidRange),
    {
        match self {
            SyncError::InvalidAddress { .. } => true,
            SyncError::InvalidRange { .. } => true,
            _ => false,
        }
    }

    /// The HTTP status code this failure maps to: client errors map to 400,
    /// everything else to 500.
    pub fn status_code(&self) -> (r: u16)
        ensures
            r == (if self is InvalidAddress || self is InvalidRange {
                400u16
            } else {
                500u16
            }),
    {
        match self {
            SyncError::InvalidAddress { .. } => 400,
            SyncError::InvalidRange { .. } => 400,
            _ => 500,
        }
    }
}

} // verus!
