use eth_tx_sync::errors::SyncError;
use eth_tx_sync::record::RawTransaction;
use eth_tx_sync::session::{FetchSession, SyncSession, MAX_PAGES};
use std::collections::BTreeSet;

fn raw_in_block(block: u64, n: u64) -> RawTransaction {
    let mut hash = "0xhash".to_string();
    hash.push_str(&block.to_string());
    hash.push('_');
    hash.push_str(&n.to_string());
    RawTransaction {
        hash: Some(hash),
        from: Some("0xf00d".to_string()),
        to: Some("0xbeef".to_string()),
        value: Some("1".to_string()),
        gas_used: Some("21000".to_string()),
        gas_price: Some("50".to_string()),
        block_number: Some(block.to_string()),
        time_stamp: Some("1694600000".to_string()),
    }
}

#[test]
fn sync_with_starting_block_past_head_fails_before_any_request() {
    let fetched: BTreeSet<u64> = BTreeSet::new();
    let r = SyncSession::new("0xabc".to_string(), "KEY".to_string(), 101, 100, &fetched);
    match r {
        Err(SyncError::InvalidRange { starting_block_number, current_block_number }) => {
            assert_eq!(starting_block_number, 101);
            assert_eq!(current_block_number, 100);
        },
        _ => panic!("expected InvalidRange"),
    }
}

#[test]
fn full_page_then_empty_page_terminates_after_two_requests() {
    let mut s = FetchSession::new("0xabc".to_string(), "KEY".to_string(), 100, 200);
    let first_request = s.next_request();
    assert!(first_request.as_str().contains("&page=1"));

    let mut page1: Vec<RawTransaction> = Vec::new();
    for n in 0..1000 {
        page1.push(raw_in_block(100, n));
    }
    assert!(s.feed_page(&page1).is_ok());
    assert!(!s.done);
    assert_eq!(s.pages_fetched, 1);

    let second_request = s.next_request();
    assert!(second_request.as_str().contains("&page=2"));

    let page2: Vec<RawTransaction> = Vec::new();
    assert!(s.feed_page(&page2).is_ok());
    assert!(s.done);
    assert_eq!(s.pages_fetched, 2);

    let records = s.into_records();
    assert_eq!(records.len(), 1000);
    assert_eq!(records[0].block_number, 100);
}

#[test]
fn sync_session_walks_all_missing_ranges_in_order() {
    let fetched: BTreeSet<u64> = BTreeSet::from([100, 101, 103, 104]);
    let mut s = SyncSession::new("0xabc".to_string(), "KEY".to_string(), 100, 106, &fetched)
        .unwrap_or_else(|_| panic!());
    assert_eq!(s.ranges, vec![(102, 102), (105, 105)]);

    // First range: one record, then the empty page that closes it.
    let url1 = s.next_request().unwrap_or_else(|| panic!());
    assert!(url1.as_str().contains("&startblock=102&endblock=102&page=1"));
    assert!(s.feed_page(&vec![raw_in_block(102, 0)]).is_ok());
    let url2 = s.next_request().unwrap_or_else(|| panic!());
    assert!(url2.as_str().contains("&startblock=102&endblock=102&page=2"));
    assert!(s.feed_page(&Vec::new()).is_ok());

    // Second range.
    let url3 = s.next_request().unwrap_or_else(|| panic!());
    assert!(url3.as_str().contains("&startblock=105&endblock=105&page=1"));
    assert!(s.feed_page(&vec![raw_in_block(105, 0)]).is_ok());
    assert!(s.feed_page(&Vec::new()).is_ok());

    // Walk complete.
    assert!(s.next_request().is_none());
    let records = s.into_records();
    assert_eq!(records.len(), 2);
    assert_eq!(records[0].block_number, 102);
    assert_eq!(records[1].block_number, 105);
    assert_eq!(records[0].tx_fee, 1_050_000);
}

#[test]
fn covered_window_needs_no_requests() {
    let fetched: BTreeSet<u64> = BTreeSet::from([100, 101]);
    let s = SyncSession::new("0xabc".to_string(), "KEY".to_string(), 100, 102, &fetched)
        .unwrap_or_else(|_| panic!());
    assert!(s.next_request().is_none());
    assert!(s.into_records().is_empty());
}

#[test]
fn malformed_record_aborts_sync() {
    let fetched: BTreeSet<u64> = BTreeSet::new();
    let mut s = SyncSession::new("0xabc".to_string(), "KEY".to_string(), 100, 101, &fetched)
        .unwrap_or_else(|_| panic!());
    let mut bad = raw_in_block(100, 0);
    bad.value = None;
    let r = s.feed_page(&vec![bad]);
    assert!(matches!(r, Err(SyncError::ParsingError)));
}

#[test]
fn page_bound_is_enforced() {
    let fetched: BTreeSet<u64> = BTreeSet::new();
    let mut s = SyncSession::new("0xabc".to_string(), "KEY".to_string(), 100, 101, &fetched)
        .unwrap_or_else(|_| panic!());
    s.page = MAX_PAGES;
    let r = s.feed_page(&vec![raw_in_block(100, 0)]);
    assert!(matches!(r, Err(SyncError::PaginationLimitExceeded)));
}
