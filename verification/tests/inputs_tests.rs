use eth_tx_sync::inputs::{Params, TransactionFormInput};

#[test]
fn paging_params_fall_back_to_defaults() {
    let p = Params { page: None, transactions_per_page: None };
    assert_eq!(p.page_or_default(), 1);
    assert_eq!(p.transactions_per_page_or_default(), 10);
}

#[test]
fn paging_params_keep_explicit_values() {
    let p = Params { page: Some(3), transactions_per_page: Some(25) };
    assert_eq!(p.page_or_default(), 3);
    assert_eq!(p.transactions_per_page_or_default(), 25);
}

#[test]
fn form_input_carries_address_and_block() {
    let f = TransactionFormInput {
        address: "0xC0404ed740a69d11201f5eD297c5732F562c6E4e".to_string(),
        starting_block_number: 17_000_000,
    };
    assert_eq!(f.address.as_str(), "0xC0404ed740a69d11201f5eD297c5732F562c6E4e");
    assert_eq!(f.starting_block_number, 17_000_000);
}
