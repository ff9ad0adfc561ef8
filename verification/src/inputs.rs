//! The caller-facing input types: the sync request form and the paging
//! parameters of the transaction-list view.

use vstd::prelude::*;

verus! {

/// Transactions shown per page when the caller does not say.
pub const DEFAULT_TRANSACTIONS_PER_PAGE: u64 = 10;

/// Optional paging parameters of the transaction-list view.
#[derive(Debug, Clone)]
pub struct Params {
    pub page: Option<u64>,
    pub transactions_per_page: Option<u64>,
}

impl Params {
    /// The 1-based page to show: the requested one, or the first.
    pub fn page_or_default(&self) -> (r: u64)
        ensures
            r == (if self.page is Some {
                self.page->0
            } else {
                1u64
            }),
    {
        match self.page {
            Some(p) => p,
            None => 1,
        }
    }

    /// How many transactions to show per page: the requested count, or the
    /// default.
    pub fn transactions_per_page_or_default(&self) -> (r: u64)
        ensures
            r == (if self.transactions_per_page is Some {
                self.transactions_per_page->0
            } else {
                DEFAULT_TRANSACTIONS_PER_PAGE
            }),
    {
        match self.transactions_per_page {
            Some(t) => t,
            None => DEFAULT_TRANSACTIONS_PER_PAGE,
        }
    }
}

/// One sync request as the caller submits it: the address whose history is
/// wanted and the block to start from.
#[derive(Debug, Clone)]
pub struct TransactionFormInput {
    pub address: String,
    pub starting_block_number: u64,
}

} // verus!
