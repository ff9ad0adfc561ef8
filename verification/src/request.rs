//! Request-string construction for the upstream block-explorer API.
//!
//! The API key and the other request parameters are passed in explicitly;
//! the library never reads ambient process state.

use vstd::prelude::*;
use vstd::string::StringExecFns;
use crate::numeric::{dec_str_of, u64_to_dec_string};

verus! {

/// Base URL of the upstream block-explorer API.
pub const ETHERSCAN_API: &'static str = "https://api.etherscan.io/api";

/// Module selectors.
pub const MODULE_ACCOUNT: &'static str = "?module=account";

pub const MODULE_PROXY: &'static str = "?module=proxy";

/// Action selectors.
pub const ACTION_TXLIST: &'static str = "&action=txlist";

pub const ACTION_ETH_BLOCK_NUMBER: &'static str = "&action=eth_blockNumber";

/// Query-parameter prefixes.
pub const API_KEY_PLACEHOLDER: &'static str = "&apikey=";

pub const ADDRESS_PLACEHOLDER: &'static str = "&address=";

pub const START_BLOCK_PLACEHOLDER: &'static str = "&startblock=";

pub const END_BLOCK_PLACEHOLDER: &'static str = "&endblock=";

pub const PAGE_PLACEHOLDER: &'static str = "&page=";

pub const OFFSET_PLACEHOLDER: &'static str = "&offset=";

pub const SORT_PLACEHOLDER: &'static str = "&sort=";

/// Records per page requested from the upstream API.
pub const PAGE_SIZE: u64 = 1000;

/// The exact character sequence of a transaction-list page request: target
/// address, inclusive block bounds, 1-based page index, fixed page size,
/// ascending sort order, and the API key.
pub open spec fn fetch_request_view(
    address: Seq<char>,
    start_block: u64,
    end_block: u64,
    page: u32,
    api_key: Seq<char>,
) -> Seq<char> {
    "https://api.etherscan.io/api"@ + "?module=account"@ + "&action=txlist"@ + "&address="@
        + address + "&startblock="@ + dec_str_of(start_block as int) + "&endblock="@ + dec_str_of(
        end_block as int,
    ) + "&page="@ + dec_str_of(page as int) + "&offset="@ + dec_str_of(1000) + "&sort="@ + "asc"@
        + "&apikey="@ + api_key
}

/// The exact character sequence of a chain-head request.
pub open spec fn chain_head_request_view(api_key: Seq<char>) -> Seq<char> {
    "https://api.etherscan.io/api"@ + "?module=proxy"@ + "&action=eth_blockNumber"@ + "&apikey="@
        + api_key
}

/// Builds the URL of one transaction-list page request.
pub fn get_fetch_tx_request_string(
    address: &str,
    start_block: u64,
    end_block: u64,
    page: u32,
    api_key: &str,
) -> (r: String)
    ensures
        r@ == fetch_request_view(address@, start_block, end_block, page, api_key@),
{
    let mut r = String::from_str(ETHERSCAN_API);
    r.append(MODULE_ACCOUNT);
    r.append(ACTION_TXLIST);
    r.append(ADDRESS_PLACEHOLDER);
    r.append(address);
    r.append(START_BLOCK_PLACEHOLDER);
    let start_str = u64_to_dec_string(start_block);
    r.append(start_str.as_str());
    r.append(END_BLOCK_PLACEHOLDER);
    let end_str = u64_to_dec_string(end_block);
    r.append(end_str.as_str());
    r.append(PAGE_PLACEHOLDER);
    let page_str = u64_to_dec_string(page as u64);
    r.append(page_str.as_str());
    r.append(OFFSET_PLACEHOLDER);
    let offset_str = u64_to_dec_string(PAGE_SIZE);
    r.append(offset_str.as_str());
    r.append(SORT_PLACEHOLDER);
    r.append("asc");
    r.append(API_KEY_PLACEHOLDER);
    r.append(api_key);
    r
}

/// Builds the URL of a chain-head request.
pub fn get_chain_head_request_string(api_key: &str) -> (r: String)
    ensures
        r@ == chain_head_request_view(api_key@),
{
    let mut r = String::from_str(ETHERSCAN_API);
    r.append(MODULE_PROXY);
    r.append(ACTION_ETH_BLOCK_NUMBER);
    r.append(API_KEY_PLACEHOLDER);
    r.append(api_key);
    r
}

} // verus!
