use eth_tx_sync::errors::SyncError;
use eth_tx_sync::normalize::{normalize_transaction, normalize_transactions};
use eth_tx_sync::record::RawTransaction;

fn well_formed_raw() -> RawTransaction {
    RawTransaction {
        hash: Some("0xabc123".to_string()),
        from: Some("0xf00d".to_string()),
        to: Some("0xbeef".to_string()),
        value: Some("1000".to_string()),
        gas_used: Some("21000".to_string()),
        gas_price: Some("50".to_string()),
        block_number: Some("17000000".to_string()),
        time_stamp: Some("1694600000".to_string()),
    }
}

#[test]
fn well_formed_record_round_trips_with_derived_fee() {
    let rec = normalize_transaction(&well_formed_raw()).unwrap_or_else(|_| panic!());
    assert_eq!(rec.tx_id.as_str(), "0xabc123");
    assert_eq!(rec.address_from.as_str(), "0xf00d");
    assert_eq!(rec.address_to.as_str(), "0xbeef");
    assert_eq!(rec.value, 1000);
    assert_eq!(rec.block_number, 17_000_000);
    assert_eq!(rec.date_time, 1_694_600_000);
    // gas_used = 21000, gas_price = 50 => tx_fee = 1_050_000.
    assert_eq!(rec.tx_fee, 1_050_000);
}

#[test]
fn missing_value_field_fails_whole_batch() {
    let good = well_formed_raw();
    let mut bad = well_formed_raw();
    bad.value = None;
    let batch = vec![good, bad];
    let r = normalize_transactions(&batch);
    assert!(matches!(r, Err(SyncError::ParsingError)));
}

#[test]
fn each_missing_field_is_rejected() {
    for field in 0..8 {
        let mut raw = well_formed_raw();
        match field {
            0 => raw.hash = None,
            1 => raw.from = None,
            2 => raw.to = None,
            3 => raw.value = None,
            4 => raw.gas_used = None,
            5 => raw.gas_price = None,
            6 => raw.block_number = None,
            _ => raw.time_stamp = None,
        }
        assert!(matches!(normalize_transaction(&raw), Err(SyncError::ParsingError)));
    }
}

#[test]
fn non_numeric_numeric_field_is_rejected() {
    let mut raw = well_formed_raw();
    raw.value = Some("12eth".to_string());
    assert!(matches!(normalize_transaction(&raw), Err(SyncError::ParsingError)));
}

#[test]
fn fee_overflow_is_rejected() {
    let mut raw = well_formed_raw();
    raw.gas_used = Some("18446744073709551615".to_string());
    raw.gas_price = Some("2".to_string());
    assert!(matches!(normalize_transaction(&raw), Err(SyncError::ParsingError)));
}

#[test]
fn out_of_range_timestamp_is_rejected() {
    // Far outside the range a UTC calendar timestamp can represent.
    let mut raw = well_formed_raw();
    raw.time_stamp = Some("9223372036854775807".to_string());
    assert!(matches!(normalize_transaction(&raw), Err(SyncError::ParsingError)));
}

#[test]
fn negative_timestamp_before_epoch_is_accepted() {
    let mut raw = well_formed_raw();
    raw.time_stamp = Some("-60".to_string());
    let rec = normalize_transaction(&raw).unwrap_or_else(|_| panic!());
    assert_eq!(rec.date_time, -60);
}

#[test]
fn empty_batch_normalizes_to_nothing() {
    let batch: Vec<RawTransaction> = Vec::new();
    let out = normalize_transactions(&batch).unwrap_or_else(|_| panic!());
    assert!(out.is_empty());
}
