//! Transaction normalizer: converts raw upstream records into
//! strongly-typed transaction records, fail-fast over a whole batch.

use vstd::prelude::*;
use crate::errors::SyncError;
use crate::numeric::{parse_i64_dec, parse_u64_dec};
use crate::record::{raw_ok, record_of, utc_timestamp_in_range, RawTransaction, TransactionRecord};

verus! {

/// Normalizes one raw record.  Succeeds exactly when the record is well
/// formed (every field present, numeric fields parse, the fee product fits
/// in a `u64`, the timestamp is representable), and then returns exactly
/// the denoted record; otherwise reports a parsing failure.
pub fn normalize_transaction(raw: &RawTransaction) -> (r: Result<TransactionRecord, SyncError>)
    ensures
        r is Ok <==> raw_ok(*raw),
        r matches Ok(rec) ==> rec == record_of(*raw),
        r matches Err(e) ==> e is ParsingError,
{
    let tx_id = match &raw.hash {
        Some(h) => h.clone(),
        None => {
            return Err(SyncError::ParsingError);
        },
    };
    let address_from = match &raw.from {
        Some(a) => a.clone(),
        None => {
            return Err(SyncError::ParsingError);
        },
    };
    let address_to = match &raw.to {
        Some(a) => a.clone(),
        None => {
            return Err(SyncError::ParsingError);
        },
    };
    let value = match &raw.value {
        Some(s) => match parse_u64_dec(s.as_str()) {
            Some(v) => v,
            None => {
                return Err(SyncError::ParsingError);
            },
        },
        None => {
            return Err(SyncError::ParsingError);
        },
    };
    let gas_used = match &raw.gas_used {
        Some(s) => match parse_u64_dec(s.as_str()) {
            Some(v) => v,
            None => {
                return Err(SyncError::ParsingError);
            },
        },
        None => {
            return Err(SyncError::ParsingError);
        },
    };
    let gas_price = match &raw.gas_price {
        Some(s) => match parse_u64_dec(s.as_str()) {
            Some(v) => v,
            None => {
                return Err(SyncError::ParsingError);
            },
        },
        None => {
            return Err(SyncError::ParsingError);
        },
    };
    let block_number = match &raw.block_number {
        Some(s) => match parse_u64_dec(s.as_str()) {
            Some(v) => v,
            None => {
                return Err(SyncError::ParsingError);
            },
        },
        None => {
            return Err(SyncError::ParsingError);
        },
    };
    let date_time = match &raw.time_stamp {
        Some(s) => match parse_i64_dec(s.as_str()) {
            Some(v) => v,
            None => {
                return Err(SyncError::ParsingError);
            },
        },
        None => {
            return Err(SyncError::ParsingError);
        },
    };
    let tx_fee = match gas_used.checked_mul(gas_price) {
        Some(f) => f,
        None => {
            return Err(SyncError::ParsingError);
        },
    };
    if !utc_timestamp_in_range(date_time) {
        return Err(SyncError::ParsingError);
    }
    Ok(
        TransactionRecord {
            tx_id,
            block_number,
            date_time,
            address_from,
            address_to,
            value,
            tx_fee,
        },
    )
}

/// Normalizes a whole batch, fail-fast: succeeds exactly when every raw
/// record in the batch is well formed, and then returns the denoted records
/// in order; a single malformed record fails the entire batch.
pub fn normalize_transactions(raws: &Vec<RawTransaction>) -> (r: Result<
    Vec<TransactionRecord>,
    SyncError,
>)
    ensures
        r is Ok <==> (forall|i: int| 0 <= i < raws@.len() ==> raw_ok(#[trigger] raws@[i])),
        r matches Ok(out) ==> {
            &&& out@.len() == raws@.len()
            &&& forall|i: int| 0 <= i < raws@.len() ==> out@[i] == record_of(#[trigger] raws@[i])
        },
        r matches Err(e) ==> e is ParsingError,
{
    let mut out: Vec<TransactionRecord> = Vec::new();
    let n = raws.len();
    let mut i: usize = 0;
    while i < n
        invariant
            n == raws@.len(),
            0 <= i <= n,
            out@.len() == i,
            forall|k: int| 0 <= k < i ==> raw_ok(#[trigger] raws@[k]),
            forall|k: int| 0 <= k < i ==> out@[k] == record_of(#[trigger] raws@[k]),
        decreases n - i,
    {
        match normalize_transaction(&raws[i]) {
            Ok(rec) => {
                out.push(rec);
            },
            Err(e) => {
                return Err(e);
            },
        }
        i += 1;
    }
    Ok(out)
}

/// A raw record that lacks its `value` field is not well formed, so by
/// `normalize_transactions`' contract a batch holding one fails outright:
/// zero records are accepted from that batch.
pub proof fn lemma_missing_value_fails_batch(raws: Seq<RawTransaction>, i: int)
    requires
        0 <= i < raws.len(),
        raws[i].value is None,
    ensures
        !(forall|k: int| 0 <= k < raws.len() ==> raw_ok(#[trigger] raws[k])),
{
    assert(!raw_ok(raws[i]));
}

} // verus!
