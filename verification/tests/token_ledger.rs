//! The token ledger: mint, transfer, approve, burn, rewrite.

use unified_liquidity::ul_nft_core::contract::{
    execute_approve, execute_burn, execute_mint, execute_transfer, execute_update_position,
    instantiate, query, query_token, query_tokens_by_owner,
};
use unified_liquidity::ul_nft_core::error::ContractError;
use unified_liquidity::ul_nft_core::msg::{InstantiateMsg, QueryAnswer, QueryMsg};
use unified_liquidity::ul_nft_core::state::{LiquidityPosition, TokenLedger};

fn s(x: &str) -> String {
    x.to_string()
}

fn setup() -> TokenLedger {
    let mut store = TokenLedger::new();
    let msg = InstantiateMsg {
        name: s("Unified Liquidity"),
        symbol: s("ULP"),
        euclid_router: s("router"),
    };
    instantiate(&mut store, s("admin"), msg).unwrap();
    store
}

fn one_position(pool: &str, amount: u128) -> Vec<LiquidityPosition> {
    vec![LiquidityPosition {
        pool_id: s(pool),
        token_pair: (s("tokA"), s("tokB")),
        amount,
        chain_id: s("chain-a"),
    }]
}

#[test]
fn mint_assigns_sequential_identifiers() {
    let mut store = setup();
    let res = execute_mint(&mut store, s("alice"), one_position("pool-1", 10), None).unwrap();
    assert_eq!(res.attributes[1].1, "ulnft1");
    execute_mint(&mut store, s("bob"), one_position("pool-2", 20), Some(s("ipfs://x"))).unwrap();

    let t1 = query_token(&store, &s("ulnft1")).unwrap();
    assert_eq!(t1.owner, "alice");
    assert_eq!(t1.positions[0].amount, 10);
    assert!(t1.approved.is_none());
    let t2 = query_token(&store, &s("ulnft2")).unwrap();
    assert_eq!(t2.owner, "bob");
    assert_eq!(t2.token_uri.as_deref(), Some("ipfs://x"));

    match query(&store, QueryMsg::TotalSupply {}).unwrap() {
        QueryAnswer::TotalSupply(n) => assert_eq!(n, 2),
        _ => panic!("unexpected answer"),
    }
    assert_eq!(query_tokens_by_owner(&store, &s("alice")), vec![s("ulnft1")]);
}

#[test]
fn transfer_moves_between_owner_lists() {
    let mut store = setup();
    execute_mint(&mut store, s("alice"), one_position("pool-1", 10), None).unwrap();
    assert_eq!(
        execute_transfer(&mut store, s("bob"), s("carol"), s("ulnft1")).unwrap_err(),
        ContractError::Unauthorized
    );
    execute_transfer(&mut store, s("alice"), s("bob"), s("ulnft1")).unwrap();
    let t = query_token(&store, &s("ulnft1")).unwrap();
    assert_eq!(t.owner, "bob");
    assert!(t.approved.is_none());
    assert!(query_tokens_by_owner(&store, &s("alice")).is_empty());
    assert_eq!(query_tokens_by_owner(&store, &s("bob")), vec![s("ulnft1")]);
}

#[test]
fn approve_records_the_spender() {
    let mut store = setup();
    execute_mint(&mut store, s("alice"), one_position("pool-1", 10), None).unwrap();
    execute_approve(&mut store, s("alice"), s("broker"), s("ulnft1")).unwrap();
    let t = query_token(&store, &s("ulnft1")).unwrap();
    assert_eq!(t.approved.as_deref(), Some("broker"));
    // A transfer clears the approval.
    execute_transfer(&mut store, s("alice"), s("bob"), s("ulnft1")).unwrap();
    assert!(query_token(&store, &s("ulnft1")).unwrap().approved.is_none());
}

#[test]
fn burn_removes_token_and_supply() {
    let mut store = setup();
    execute_mint(&mut store, s("alice"), one_position("pool-1", 10), None).unwrap();
    assert_eq!(
        execute_burn(&mut store, s("bob"), s("ulnft1")).unwrap_err(),
        ContractError::Unauthorized
    );
    execute_burn(&mut store, s("alice"), s("ulnft1")).unwrap();
    assert_eq!(
        query_token(&store, &s("ulnft1")).unwrap_err(),
        ContractError::TokenNotFound
    );
    match query(&store, QueryMsg::TotalSupply {}).unwrap() {
        QueryAnswer::TotalSupply(n) => assert_eq!(n, 0),
        _ => panic!("unexpected answer"),
    }
    assert!(query_tokens_by_owner(&store, &s("alice")).is_empty());
}

#[test]
fn position_rewrite_is_ownership_gated() {
    let mut store = setup();
    execute_mint(&mut store, s("alice"), one_position("pool-1", 10), None).unwrap();
    assert_eq!(
        execute_update_position(&mut store, s("bob"), s("ulnft1"), one_position("pool-9", 1))
            .unwrap_err(),
        ContractError::Unauthorized
    );
    execute_update_position(&mut store, s("alice"), s("ulnft1"), one_position("pool-9", 99))
        .unwrap();
    let t = query_token(&store, &s("ulnft1")).unwrap();
    assert_eq!(t.positions[0].pool_id, "pool-9");
    assert_eq!(t.positions[0].amount, 99);
}

#[test]
fn ledger_queries_answer_config() {
    let store = setup();
    match query(&store, QueryMsg::Config {}).unwrap() {
        QueryAnswer::Config(c) => {
            assert_eq!(c.name, "Unified Liquidity");
            assert_eq!(c.symbol, "ULP");
            assert_eq!(c.admin, "admin");
        }
        _ => panic!("unexpected answer"),
    }
}
