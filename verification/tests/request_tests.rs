use eth_tx_sync::request::{get_chain_head_request_string, get_fetch_tx_request_string};

#[test]
fn fetch_request_has_exact_shape() {
    let url = get_fetch_tx_request_string("0xabc", 5, 9, 2, "KEY");
    assert_eq!(
        url.as_str(),
        "https://api.etherscan.io/api?module=account&action=txlist&address=0xabc\
        &startblock=5&endblock=9&page=2&offset=1000&sort=asc&apikey=KEY"
    );
}

#[test]
fn fetch_request_carries_inclusive_bounds_and_page() {
    let url = get_fetch_tx_request_string(
        "0xC0404ed740a69d11201f5eD297c5732F562c6E4e",
        17000000,
        17000005,
        1,
        "SECRET-REDACTED",
    );
    let u = url.as_str();
    assert!(u.contains("&address=0xC0404ed740a69d11201f5eD297c5732F562c6E4e"));
    assert!(u.contains("&startblock=17000000"));
    assert!(u.contains("&endblock=17000005"));
    assert!(u.contains("&page=1"));
    assert!(u.contains("&offset=1000"));
    assert!(u.contains("&sort=asc"));
}

#[test]
fn chain_head_request_has_exact_shape() {
    let url = get_chain_head_request_string("KEY");
    assert_eq!(
        url.as_str(),
        "https://api.etherscan.io/api?module=proxy&action=eth_blockNumber&apikey=KEY"
    );
}
