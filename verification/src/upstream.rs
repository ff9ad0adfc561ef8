//! Reading the upstream API's JSON payloads: extracting the raw
//! transaction records of a page response and the hexadecimal chain head
//! of a chain-head response.  The JSON values themselves are opaque; all
//! logic works on the plain values extracted from them.

use vstd::prelude::*;
use vstd::string::StrSliceExecFns;
use crate::errors::SyncError;
use crate::normalize::normalize_transactions;
use crate::numeric::{hex_val, parse_u64_hex, u64_hex_ok};
use crate::record::{RawTransaction, TransactionRecord};

verus! {

#[verifier::external_type_specification]
#[verifier::external_body]
pub struct ExValue(serde_json::Value);

/// Relies on serde_json's `Value::get` and `Value::as_str`: returns the
/// named field's text when the field is present and holds a string,
/// nothing otherwise.  The JSON value is opaque, so no more is stated.
#[verifier::external_body]
fn json_field_str(v: &serde_json::Value, key: &str) -> Option<String> {
    v.get(key).and_then(|f| f.as_str()).map(|s| s.to_string())
}

/// Relies on serde_json's `Value::get` and `Value::as_array`: returns the
/// elements of the `result` field when it is present and holds a list,
/// nothing otherwise.
#[verifier::external_body]
fn json_result_array(v: &serde_json::Value) -> Option<Vec<serde_json::Value>> {
    v.get("result").and_then(|r| r.as_array()).map(|a| a.clone())
}

/// Extracts the eight raw fields of one transaction element.  A field that
/// is absent or not a string is left empty; the normalizer decides what
/// that means for the batch.
pub fn raw_of_value(v: &serde_json::Value) -> RawTransaction {
    RawTransaction {
        hash: json_field_str(v, "hash"),
        from: json_field_str(v, "from"),
        to: json_field_str(v, "to"),
        value: json_field_str(v, "value"),
        gas_used: json_field_str(v, "gasUsed"),
        gas_price: json_field_str(v, "gasPrice"),
        block_number: json_field_str(v, "blockNumber"),
        time_stamp: json_field_str(v, "timeStamp"),
    }
}

/// Extracts the raw transaction records of one page response: the `result`
/// field must hold a list, else the whole page is a parsing failure.
pub fn raw_records_of_response(resp: &serde_json::Value) -> (r: Result<
    Vec<RawTransaction>,
    SyncError,
>)
    ensures
        r matches Err(e) ==> e is ParsingError,
{
    let elements = match json_result_array(resp) {
        Some(a) => a,
        None => {
            return Err(SyncError::ParsingError);
        },
    };
    let mut raws: Vec<RawTransaction> = Vec::new();
    let n = elements.len();
    let mut i: usize = 0;
    while i < n
        invariant
            n == elements.len(),
            0 <= i <= n,
        decreases n - i,
    {
        raws.push(raw_of_value(&elements[i]));
        i += 1;
    }
    Ok(raws)
}

/// Parses one page response end to end: extracts the raw records and
/// normalizes them, fail-fast over the whole page.
pub fn parse_transactions(resp: &serde_json::Value) -> (r: Result<
    Vec<TransactionRecord>,
    SyncError,
>)
    ensures
        r matches Err(e) ==> e is ParsingError,
{
    let raws = match raw_records_of_response(resp) {
        Ok(raws) => raws,
        Err(e) => {
            return Err(e);
        },
    };
    normalize_transactions(&raws)
}

/// `s` with every leading `0x` pair removed.
pub open spec fn strip_0x(s: Seq<char>) -> Seq<char>
    decreases s.len(),
{
    if s.len() >= 2 && s[0] == '0' && s[1] == 'x' {
        strip_0x(s.skip(2))
    } else {
        s
    }
}

/// Parses the text of a chain-head response's `result` field: leading `0x`
/// prefixes are stripped and the rest must be a hexadecimal numeral that
/// fits in a `u64`.
pub fn parse_chain_head_result(s: &str) -> (r: Result<u64, SyncError>)
    ensures
        r is Ok <==> u64_hex_ok(strip_0x(s@)),
        r matches Ok(v) ==> v == hex_val(strip_0x(s@)),
        r matches Err(e) ==> e is ParsingError,
{
    let n = s.unicode_len();
    let mut st: usize = 0;
    proof {
        assert(s@.skip(0) =~= s@);
    }
    while n - st >= 2 && s.get_char(st) == '0' && s.get_char(st + 1) == 'x'
        invariant
            n == s@.len(),
            0 <= st <= n,
            strip_0x(s@) == strip_0x(s@.skip(st as int)),
        decreases n - st,
    {
        proof {
            assert(s@.skip(st as int).len() >= 2);
            assert(s@.skip(st as int)[0] == s@[st as int]);
            assert(s@.skip(st as int)[1] == s@[st as int + 1]);
            assert(s@.skip(st as int).skip(2) =~= s@.skip(st as int + 2));
        }
        st += 2;
    }
    proof {
        if s@.skip(st as int).len() >= 2 {
            assert(s@.skip(st as int)[0] == s@[st as int]);
            assert(s@.skip(st as int)[1] == s@[st as int + 1]);
        }
        assert(strip_0x(s@.skip(st as int)) == s@.skip(st as int));
    }
    let rest = s.substring_char(st, n);
    proof {
        assert(rest@ =~= s@.skip(st as int));
    }
    match parse_u64_hex(rest) {
        Some(v) => Ok(v),
        None => Err(SyncError::ParsingError),
    }
}

/// Parses a chain-head response: the `result` field must hold a string
/// whose stripped text is an in-range hexadecimal numeral.
pub fn parse_chain_head_response(resp: &serde_json::Value) -> (r: Result<u64, SyncError>)
    ensures
        r matches Err(e) ==> e is ParsingError,
{
    match json_field_str(resp, "result") {
        Some(text) => parse_chain_head_result(text.as_str()),
        None => Err(SyncError::ParsingError),
    }
}

} // verus!
