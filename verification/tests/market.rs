//! The marketplace: listing lifecycle and fee split.

use unified_liquidity::marketplace::contract::{
    compute_fee, execute_buy_nft, execute_cancel_listing, execute_list_nft, execute_update_fee,
    instantiate, query, query_listing, query_listings,
};
use unified_liquidity::marketplace::error::ContractError;
use unified_liquidity::marketplace::msg::{
    Coin, InstantiateMsg, MarketMsg, QueryAnswer, QueryMsg,
};
use unified_liquidity::marketplace::state::MarketStore;

fn s(x: &str) -> String {
    x.to_string()
}

fn setup(fee: u64) -> MarketStore {
    let mut store = MarketStore::new();
    let msg = InstantiateMsg { ul_nft_contract: s("nft_contract"), fee_percentage: fee };
    instantiate(&mut store, s("creator"), msg).unwrap();
    store
}

#[test]
fn proper_initialization() {
    let mut store = MarketStore::new();
    let msg = InstantiateMsg {
        ul_nft_contract: s("nft_contract"),
        fee_percentage: 250, // 2.5%
    };
    let res = instantiate(&mut store, s("creator"), msg).unwrap();
    assert_eq!(0, res.messages.len());

    // Query the config
    match query(&store, QueryMsg::GetConfig {}).unwrap() {
        QueryAnswer::Config(config) => assert_eq!(config.fee_percentage, 250),
        _ => panic!("unexpected answer"),
    }
}

#[test]
fn fee_cap_is_enforced() {
    let mut store = MarketStore::new();
    let msg = InstantiateMsg { ul_nft_contract: s("nft_contract"), fee_percentage: 10001 };
    let err = instantiate(&mut store, s("creator"), msg).unwrap_err();
    assert_eq!(err, ContractError::InvalidFeePercentage);

    let mut store = setup(250);
    assert_eq!(
        execute_update_fee(&mut store, s("creator"), 10001).unwrap_err(),
        ContractError::InvalidFeePercentage
    );
    assert_eq!(
        execute_update_fee(&mut store, s("intruder"), 100).unwrap_err(),
        ContractError::Unauthorized
    );
    execute_update_fee(&mut store, s("creator"), 100).unwrap();
}

#[test]
fn basis_point_fee_values() {
    assert_eq!(compute_fee(10000, 250), 250);
    assert_eq!(compute_fee(10000, 0), 0);
    assert_eq!(compute_fee(10000, 10000), 10000);
    assert_eq!(compute_fee(999, 250), 24); // 999 * 250 / 10000, rounded down
    assert_eq!(compute_fee(u128::MAX, 10000), u128::MAX);
    assert_eq!(compute_fee(u128::MAX, 1), u128::MAX / 10000);
}

#[test]
fn listing_lifecycle() {
    let mut store = setup(250);
    assert_eq!(
        execute_list_nft(&mut store, 5, s("seller"), s("tok1"), 0).unwrap_err(),
        ContractError::InvalidPrice
    );
    execute_list_nft(&mut store, 5, s("seller"), s("tok1"), 10000).unwrap();
    assert_eq!(
        execute_list_nft(&mut store, 6, s("seller"), s("tok1"), 20000).unwrap_err(),
        ContractError::AlreadyListed
    );
    let listing = query_listing(&store, &s("tok1")).unwrap();
    assert_eq!(listing.seller, "seller");
    assert_eq!(listing.price, 10000);
    assert_eq!(listing.listing_time, 5);

    assert_eq!(
        execute_cancel_listing(&mut store, s("other"), s("tok1")).unwrap_err(),
        ContractError::Unauthorized
    );
    execute_cancel_listing(&mut store, s("seller"), s("tok1")).unwrap();
    assert!(query_listing(&store, &s("tok1")).is_none());
    assert_eq!(
        execute_cancel_listing(&mut store, s("seller"), s("tok1")).unwrap_err(),
        ContractError::NotListed
    );
}

#[test]
fn buy_splits_price_between_seller_and_admin() {
    let mut store = setup(250);
    execute_list_nft(&mut store, 5, s("seller"), s("tok1"), 10000).unwrap();
    let funds = vec![Coin { denom: s("uarch"), amount: 10000 }];
    let res = execute_buy_nft(&mut store, s("buyer"), funds, s("tok1")).unwrap();

    assert_eq!(res.messages.len(), 3);
    match &res.messages[0] {
        MarketMsg::TransferNft { contract_addr, recipient, token_id } => {
            assert_eq!(contract_addr, "nft_contract");
            assert_eq!(recipient, "buyer");
            assert_eq!(token_id, "tok1");
        }
        _ => panic!("expected the token handoff first"),
    }
    match &res.messages[1] {
        MarketMsg::BankSend { to_address, amount, denom } => {
            assert_eq!(to_address, "seller");
            assert_eq!(*amount, 9750);
            assert_eq!(denom, "uarch");
        }
        _ => panic!("expected the seller's proceeds"),
    }
    match &res.messages[2] {
        MarketMsg::BankSend { to_address, amount, .. } => {
            assert_eq!(to_address, "creator");
            assert_eq!(*amount, 250);
        }
        _ => panic!("expected the administrator's fee"),
    }
    assert!(query_listing(&store, &s("tok1")).is_none());
}

#[test]
fn buy_without_covering_payment_fails() {
    let mut store = setup(250);
    execute_list_nft(&mut store, 5, s("seller"), s("tok1"), 10000).unwrap();
    let short = vec![Coin { denom: s("uarch"), amount: 9999 }];
    assert_eq!(
        execute_buy_nft(&mut store, s("buyer"), short, s("tok1")).unwrap_err(),
        ContractError::InsufficientFunds
    );
    let wrong_denom = vec![Coin { denom: s("uother"), amount: 10000 }];
    assert_eq!(
        execute_buy_nft(&mut store, s("buyer"), wrong_denom, s("tok1")).unwrap_err(),
        ContractError::InsufficientFunds
    );
    // The listing is still there.
    assert!(query_listing(&store, &s("tok1")).is_some());
}

#[test]
fn zero_fee_buy_pays_the_seller_alone() {
    let mut store = setup(0);
    execute_list_nft(&mut store, 5, s("seller"), s("tok1"), 100).unwrap();
    let funds = vec![Coin { denom: s("uarch"), amount: 100 }];
    let res = execute_buy_nft(&mut store, s("buyer"), funds, s("tok1")).unwrap();
    assert_eq!(res.messages.len(), 2);
    match &res.messages[1] {
        MarketMsg::BankSend { to_address, amount, .. } => {
            assert_eq!(to_address, "seller");
            assert_eq!(*amount, 100);
        }
        _ => panic!("expected the seller's proceeds"),
    }
}

#[test]
fn listings_scan_in_storage_order() {
    let mut store = setup(250);
    for (t, tok, price) in [(1u64, "a", 10u128), (2, "b", 20), (3, "c", 30)] {
        execute_list_nft(&mut store, t, s("seller"), s(tok), price).unwrap();
    }
    let all = query_listings(&store, None, None);
    assert_eq!(all.len(), 3);
    assert_eq!(all[0].token_id, "a");
    assert_eq!(all[2].token_id, "c");

    let after_a = query_listings(&store, Some(s("a")), Some(1));
    assert_eq!(after_a.len(), 1);
    assert_eq!(after_a[0].token_id, "b");

    let after_absent = query_listings(&store, Some(s("zzz")), None);
    assert_eq!(after_absent.len(), 3);
}
