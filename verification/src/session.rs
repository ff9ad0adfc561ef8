//! The synchronization state machines.
//!
//! Network transport lives outside the library: a driver repeatedly asks a
//! session for the next page request URL, performs the request, converts
//! the response into raw records, and feeds them back.  The session decides
//! everything else — pagination, range advancement, normalization,
//! accumulation — and those decisions are verified.
//!
//! `FetchSession` drives the paginated fetch of a single block range;
//! `SyncSession` drives a whole sync: it validates the window, computes the
//! missing ranges, and walks them in ascending order.

use vstd::prelude::*;
use std::collections::BTreeSet;
use crate::errors::SyncError;
use crate::normalize::normalize_transactions;
use crate::ranges::{
    block_missing, get_block_ranges_for_unfetched_transactions, in_ranges, ranges_wf,
};
use crate::record::{raw_ok, record_of, RawTransaction, TransactionRecord};
use crate::request::{fetch_request_view, get_fetch_tx_request_string};
use crate::validators::ensure_valid_starting_block_number;

verus! {

/// Upper bound on the 1-based page index: one more page request past this
/// bound fails with `PaginationLimitExceeded` instead of looping without
/// bound against the upstream API.
pub const MAX_PAGES: u32 = 100000;

/// The records a page of raw records normalizes to, in page order.
pub open spec fn records_of(raws: Seq<RawTransaction>) -> Seq<TransactionRecord> {
    raws.map_values(|raw: RawTransaction| record_of(raw))
}

/// Paginated fetch of one block range for one address.
pub struct FetchSession {
    pub address: String,
    pub api_key: String,
    pub low: u64,
    pub high: u64,
    /// 1-based index of the next page to request.
    pub page: u32,
    /// Set once a page came back empty: the range is exhausted.
    pub done: bool,
    /// Normalized records of the pages fed so far, in fetch order.
    pub records: Vec<TransactionRecord>,
    /// How many pages have been fed back so far.
    pub pages_fetched: u32,
}

/// How one successfully fed page changes a fetch session: an empty page
/// finishes the range and adds nothing; a non-empty page appends its
/// normalized records and moves to the next page index.
pub open spec fn feed_ok_transition(
    pre: FetchSession,
    post: FetchSession,
    raws: Seq<RawTransaction>,
) -> bool {
    &&& post.address == pre.address
    &&& post.api_key == pre.api_key
    &&& post.low == pre.low
    &&& post.high == pre.high
    &&& post.pages_fetched == pre.pages_fetched + 1
    &&& (forall|i: int| 0 <= i < raws.len() ==> raw_ok(#[trigger] raws[i]))
    &&& if raws.len() == 0 {
        &&& post.done
        &&& post.records@ == pre.records@
        &&& post.page == pre.page
    } else {
        &&& post.done == pre.done
        &&& post.records@ == pre.records@ + records_of(raws)
        &&& post.page == pre.page + 1
    }
}

impl FetchSession {
    /// Internal consistency of the pagination counters.
    pub open spec fn wf(self) -> bool {
        &&& 1 <= self.page
        &&& (if self.done {
            self.pages_fetched <= self.page
        } else {
            self.pages_fetched < self.page
        })
    }

    /// Starts a fetch of the inclusive block range `[low, high]` at page 1
    /// with nothing fetched yet.
    pub fn new(address: String, api_key: String, low: u64, high: u64) -> (s: FetchSession)
        ensures
            s.wf(),
            s.address == address,
            s.api_key == api_key,
            s.low == low,
            s.high == high,
            s.page == 1,
            !s.done,
            s.records@.len() == 0,
            s.pages_fetched == 0,
    {
        FetchSession {
            address,
            api_key,
            low,
            high,
            page: 1,
            done: false,
            records: Vec::new(),
            pages_fetched: 0,
        }
    }

    /// The URL of the next page request.
    pub fn next_request(&self) -> (r: String)
        requires
            !self.done,
        ensures
            r@ == fetch_request_view(self.address@, self.low, self.high, self.page, self.api_key@),
    {
        get_fetch_tx_request_string(
            self.address.as_str(),
            self.low,
            self.high,
            self.page,
            self.api_key.as_str(),
        )
    }

    /// Feeds back the raw records of the page most recently requested.
    /// Fails the whole range on the first malformed record (the range is
    /// all-or-nothing) and when the page bound is exceeded; otherwise the
    /// session advances by `feed_ok_transition`.
    pub fn feed_page(&mut self, raws: &Vec<RawTransaction>) -> (r: Result<(), SyncError>)
        requires
            old(self).wf(),
            !old(self).done,
        ensures
            final(self).wf(),
            old(self).page >= MAX_PAGES ==> (r matches Err(e) && e is PaginationLimitExceeded
                && *final(self) == *old(self)),
            old(self).page < MAX_PAGES ==> {
                &&& (r is Ok <==> forall|i: int|
                    0 <= i < raws@.len() ==> raw_ok(#[trigger] raws@[i]))
                &&& (r is Ok ==> feed_ok_transition(*old(self), *final(self), raws@))
                &&& (r matches Err(e) ==> e is ParsingError && *final(self) == *old(self))
            },
    {
        if self.page >= MAX_PAGES {
            return Err(SyncError::PaginationLimitExceeded);
        }
        let mut recs = match normalize_transactions(raws) {
            Ok(recs) => recs,
            Err(e) => {
                return Err(e);
            },
        };
        self.pages_fetched = self.pages_fetched + 1;
        if raws.len() == 0 {
            self.done = true;
        } else {
            self.records.append(&mut recs);
            self.page = self.page + 1;
            proof {
                assert(final(self).records@ =~= old(self).records@ + records_of(raws@));
            }
        }
        Ok(())
    }

    /// Hands out the accumulated records once the range is exhausted.
    pub fn into_records(self) -> (r: Vec<TransactionRecord>)
        requires
            self.done,
        ensures
            r == self.records,
    {
        self.records
    }
}

/// Pagination terminates on the first empty page: a fetch whose first page
/// holds a full page of records and whose second page is empty is fed
/// exactly two pages — so the driver made exactly two page requests — and
/// ends with exactly the first page's records.
pub proof fn lemma_pagination_two_pages(
    s0: FetchSession,
    s1: FetchSession,
    s2: FetchSession,
    raws1: Seq<RawTransaction>,
    raws2: Seq<RawTransaction>,
)
    requires
        !s0.done,
        s0.page == 1,
        s0.pages_fetched == 0,
        s0.records@.len() == 0,
        feed_ok_transition(s0, s1, raws1),
        raws1.len() == 1000,
        feed_ok_transition(s1, s2, raws2),
        raws2.len() == 0,
    ensures
        !s1.done,
        s2.done,
        s2.pages_fetched == 2,
        s2.records@ == records_of(raws1),
{
    assert(s0.records@ + records_of(raws1) =~= records_of(raws1));
}

/// One whole synchronization request: window validation, missing-range
/// computation, and the walk over the missing ranges in ascending order.
pub struct SyncSession {
    pub address: String,
    pub api_key: String,
    /// The missing ranges, ascending and disjoint, fixed at creation.
    pub ranges: Vec<(u64, u64)>,
    /// Index of the range currently being fetched.
    pub range_idx: usize,
    /// 1-based index of the next page to request within the current range.
    pub page: u32,
    /// Normalized net-new records accumulated so far, in fetch order.
    pub collected: Vec<TransactionRecord>,
}

/// How one successfully fed page changes a sync session: an empty page
/// moves on to the next missing range; a non-empty page appends its
/// normalized records and moves to the next page of the same range.
pub open spec fn sync_feed_ok_transition(
    pre: SyncSession,
    post: SyncSession,
    raws: Seq<RawTransaction>,
) -> bool {
    &&& post.address == pre.address
    &&& post.api_key == pre.api_key
    &&& post.ranges@ == pre.ranges@
    &&& (forall|i: int| 0 <= i < raws.len() ==> raw_ok(#[trigger] raws[i]))
    &&& if raws.len() == 0 {
        &&& post.range_idx == pre.range_idx + 1
        &&& post.page == 1
        &&& post.collected@ == pre.collected@
    } else {
        &&& post.range_idx == pre.range_idx
        &&& post.page == pre.page + 1
        &&& post.collected@ == pre.collected@ + records_of(raws)
    }
}

impl SyncSession {
    pub open spec fn wf(self) -> bool {
        &&& self.range_idx <= self.ranges@.len()
        &&& 1 <= self.page
        &&& ranges_wf(self.ranges@)
    }

    /// All missing ranges have been walked: the sync is complete.
    pub open spec fn done(self) -> bool {
        self.range_idx >= self.ranges@.len()
    }

    /// Starts a sync.  Validation happens here, before any request URL can
    /// be handed out: a starting block beyond the chain head fails with
    /// `InvalidRange` and no network activity can follow.  On success the
    /// session's ranges are exactly the missing ranges of the window.
    pub fn new(
        address: String,
        api_key: String,
        starting_block_number: u64,
        current_block_number: u64,
        fetched: &BTreeSet<u64>,
    ) -> (r: Result<SyncSession, SyncError>)
        ensures
            r is Err <==> starting_block_number > current_block_number,
            r matches Err(e) ==> e == (SyncError::InvalidRange {
                starting_block_number,
                current_block_number,
            }),
            r matches Ok(s) ==> {
                &&& s.wf()
                &&& s.address == address
                &&& s.api_key == api_key
                &&& s.range_idx == 0
                &&& s.page == 1
                &&& s.collected@.len() == 0
                &&& forall|x: u64|
                    #[trigger] in_ranges(s.ranges@, x) <==> block_missing(
                        fetched@,
                        starting_block_number,
                        current_block_number,
                        x,
                    )
            },
    {
        match ensure_valid_starting_block_number(starting_block_number, current_block_number) {
            Err(e) => Err(e),
            Ok(()) => {
                let ranges = get_block_ranges_for_unfetched_transactions(
                    fetched,
                    starting_block_number,
                    current_block_number,
                );
                Ok(
                    SyncSession {
                        address,
                        api_key,
                        ranges,
                        range_idx: 0,
                        page: 1,
                        collected: Vec::new(),
                    },
                )
            },
        }
    }

    /// The URL of the next page request, or nothing once every missing
    /// range has been walked.
    pub fn next_request(&self) -> (r: Option<String>)
        requires
            self.wf(),
        ensures
            r is None <==> self.done(),
            r matches Some(u) ==> u@ == fetch_request_view(
                self.address@,
                self.ranges@[self.range_idx as int].0,
                self.ranges@[self.range_idx as int].1,
                self.page,
                self.api_key@,
            ),
    {
        if self.range_idx >= self.ranges.len() {
            None
        } else {
            let (lo, hi) = self.ranges[self.range_idx];
            Some(
                get_fetch_tx_request_string(
                    self.address.as_str(),
                    lo,
                    hi,
                    self.page,
                    self.api_key.as_str(),
                ),
            )
        }
    }

    /// Feeds back the raw records of the page most recently requested.
    /// The first error — malformed record or page bound exceeded — aborts
    /// the entire sync attempt; no partial result is surfaced.
    pub fn feed_page(&mut self, raws: &Vec<RawTransaction>) -> (r: Result<(), SyncError>)
        requires
            old(self).wf(),
            !old(self).done(),
        ensures
            final(self).wf(),
            old(self).page >= MAX_PAGES ==> (r matches Err(e) && e is PaginationLimitExceeded
                && *final(self) == *old(self)),
            old(self).page < MAX_PAGES ==> {
                &&& (r is Ok <==> forall|i: int|
                    0 <= i < raws@.len() ==> raw_ok(#[trigger] raws@[i]))
                &&& (r is Ok ==> sync_feed_ok_transition(*old(self), *final(self), raws@))
                &&& (r matches Err(e) ==> e is ParsingError && *final(self) == *old(self))
            },
    {
        if self.page >= MAX_PAGES {
            return Err(SyncError::PaginationLimitExceeded);
        }
        let mut recs = match normalize_transactions(raws) {
            Ok(recs) => recs,
            Err(e) => {
                return Err(e);
            },
        };
        if raws.len() == 0 {
            let n_ranges = self.ranges.len();
            assert(self.range_idx < n_ranges);
            self.range_idx = self.range_idx + 1;
            self.page = 1;
        } else {
            self.collected.append(&mut recs);
            self.page = self.page + 1;
            proof {
                assert(final(self).collected@ =~= old(self).collected@ + records_of(raws@));
            }
        }
        Ok(())
    }

    /// Hands out the accumulated net-new records once the walk is
    /// complete; the caller persists them.
    pub fn into_records(self) -> (r: Vec<TransactionRecord>)
        requires
            self.done(),
        ensures
            r == self.collected,
    {
        self.collected
    }
}

/// The records a whole walk accumulates: the concatenation of the
/// normalized records of each page fed, in feed order.
pub open spec fn collected_of(pages: Seq<Seq<RawTransaction>>) -> Seq<TransactionRecord>
    decreases pages.len(),
{
    if pages.len() == 0 {
        Seq::empty()
    } else {
        collected_of(pages.drop_last()) + records_of(pages.last())
    }
}

/// Accumulation across a whole sync: starting from a fresh session, after
/// any number of successfully fed pages, the collected records are exactly
/// the concatenation of every page's normalized records in feed order —
/// nothing is lost and nothing is invented — and the missing ranges the
/// walk follows never change.
pub proof fn lemma_sync_collects_every_page(
    states: Seq<SyncSession>,
    pages: Seq<Seq<RawTransaction>>,
)
    requires
        states.len() == pages.len() + 1,
        states[0].collected@.len() == 0,
        forall|k: int|
            0 <= k < pages.len() ==> #[trigger] sync_feed_ok_transition(
                states[k],
                states[k + 1],
                pages[k],
            ),
    ensures
        states.last().collected@ == collected_of(pages),
        states.last().ranges@ == states[0].ranges@,
    decreases pages.len(),
{
    if pages.len() == 0 {
        assert(states.last() == states[0]);
        assert(states[0].collected@ =~= collected_of(pages));
    } else {
        let n = pages.len() as int;
        assert forall|k: int|
            0 <= k < n - 1 implies #[trigger] sync_feed_ok_transition(
            states.drop_last()[k],
            states.drop_last()[k + 1],
            pages.drop_last()[k],
        ) by {
            assert(sync_feed_ok_transition(states[k], states[k + 1], pages[k]));
        }
        lemma_sync_collects_every_page(states.drop_last(), pages.drop_last());
        assert(states.drop_last().last() == states[n - 1]);
        assert(sync_feed_ok_transition(states[n - 1], states[n], pages[n - 1]));
        assert(states.last() == states[n]);
        assert(pages.last() == pages[n - 1]);
        if pages.last().len() == 0 {
            assert(records_of(pages.last()) =~= Seq::<TransactionRecord>::empty());
            assert(states[n].collected@ =~= collected_of(
                pages.drop_last(),
            ) + records_of(pages.last()));
        }
    }
}

} // verus!
