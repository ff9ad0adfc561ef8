//! The transaction data model: raw upstream records as they arrive from the
//! block-explorer API, and the strongly-typed records the normalizer
//! produces from them.

use vstd::prelude::*;
use crate::numeric::{dec_val, i64_dec_ok, i64_dec_val, u64_dec_ok};

verus! {

/// One raw transaction record as the upstream API sends it: every field is
/// a string, and any field may be absent.
#[derive(Debug, Clone)]
pub struct RawTransaction {
    pub hash: Option<String>,
    pub from: Option<String>,
    pub to: Option<String>,
    pub value: Option<String>,
    pub gas_used: Option<String>,
    pub gas_price: Option<String>,
    pub block_number: Option<String>,
    pub time_stamp: Option<String>,
}

/// One on-chain transfer, fully validated.  `date_time` is the UTC
/// timestamp as whole epoch seconds; `tx_fee` is the derived
/// `gas_used * gas_price`.
#[derive(Debug, Clone)]
pub struct TransactionRecord {
    pub tx_id: String,
    pub block_number: u64,
    pub date_time: i64,
    pub address_from: String,
    pub address_to: String,
    pub value: u64,
    pub tx_fee: u64,
}

/// Whether an epoch-second timestamp lies in the range that a UTC calendar
/// timestamp can represent.  The exact bound is the calendar library's;
/// it depends on the seconds value alone.
pub uninterp spec fn utc_representable(secs: i64) -> bool;

/// Relies on chrono's `DateTime::<Utc>::from_timestamp`: it returns `Some`
/// exactly when the number of seconds is in range, and the result depends
/// on the seconds value alone.
#[verifier::external_body]
pub fn utc_timestamp_in_range(secs: i64) -> (r: bool)
    ensures
        r == utc_representable(secs),
{
    chrono::DateTime::<chrono::Utc>::from_timestamp(secs, 0).is_some()
}

/// A raw record is well formed: every field is present, the numeric fields
/// are decimal numerals in range, the fee product fits in a `u64`, and the
/// timestamp is representable as a UTC calendar timestamp.
pub open spec fn raw_ok(raw: RawTransaction) -> bool {
    &&& raw.hash is Some
    &&& raw.from is Some
    &&& raw.to is Some
    &&& raw.value matches Some(v) && u64_dec_ok(v@)
    &&& raw.gas_used matches Some(g) && u64_dec_ok(g@)
    &&& raw.gas_price matches Some(p) && u64_dec_ok(p@)
    &&& raw.block_number matches Some(b) && u64_dec_ok(b@)
    &&& raw.time_stamp matches Some(t) && i64_dec_ok(t@)
    &&& (raw.gas_used matches Some(g) && raw.gas_price matches Some(p) ==> dec_val(g@) * dec_val(
        p@,
    ) <= u64::MAX)
    &&& (raw.time_stamp matches Some(t) ==> utc_representable(i64_dec_val(t@) as i64))
}

/// The strongly-typed record a well-formed raw record denotes.
pub open spec fn record_of(raw: RawTransaction) -> TransactionRecord
    recommends
        raw_ok(raw),
{
    TransactionRecord {
        tx_id: raw.hash->Some_0,
        block_number: dec_val(raw.block_number->Some_0@) as u64,
        date_time: i64_dec_val(raw.time_stamp->Some_0@) as i64,
        address_from: raw.from->Some_0,
        address_to: raw.to->Some_0,
        value: dec_val(raw.value->Some_0@) as u64,
        tx_fee: (dec_val(raw.gas_used->Some_0@) * dec_val(raw.gas_price->Some_0@)) as u64,
    }
}

} // verus!
