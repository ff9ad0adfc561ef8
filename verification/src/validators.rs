//! Validation of user-supplied inputs, performed before any network
//! activity.

use vstd::prelude::*;
use crate::errors::SyncError;

verus! {

/// Whether a character sequence is a valid Ethereum address (40 hex
/// digits, optionally `0x`-prefixed, with a correct mixed-case checksum
/// when it carries one).  The full condition involves a Keccak-256 digest,
/// so it is left abstract; it depends on the characters alone.
pub uninterp spec fn is_eth_address(s: Seq<char>) -> bool;

/// Relies on eth-address's `address::is_address`: a pure format and
/// checksum test whose result depends on the address characters alone.
#[verifier::external_body]
fn is_address_format(address: &str) -> (r: bool)
    ensures
        r == is_eth_address(address@),
{
    eth_address::address::is_address(address.to_string())
}

/// Accepts exactly the valid Ethereum addresses; rejects anything else
/// with `InvalidAddress` carrying the offending address.
pub fn ensure_valid_eth_address(address: &str) -> (r: Result<(), SyncError>)
    ensures
        r is Ok <==> is_eth_address(address@),
        r matches Err(e) ==> e matches SyncError::InvalidAddress { address: a } && a@ == address@,
{
    if !is_address_format(address) {
        Err(SyncError::InvalidAddress { address: address.to_owned() })
    } else {
        Ok(())
    }
}

/// Accepts exactly the windows whose starting block does not exceed the
/// current chain head; rejects the rest with `InvalidRange` carrying both
/// block numbers.
pub fn ensure_valid_starting_block_number(
    starting_block_number: u64,
    current_block_number: u64,
) -> (r: Result<(), SyncError>)
    ensures
        r is Ok <==> starting_block_number <= current_block_number,
        r matches Err(e) ==> e == (SyncError::InvalidRange {
            starting_block_number,
            current_block_number,
        }),
{
    if starting_block_number > current_block_number {
        Err(SyncError::InvalidRange { starting_block_number, current_block_number })
    } else {
        Ok(())
    }
}

} // verus!
