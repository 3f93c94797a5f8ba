//! The cross-domain lifecycle of the liquidity wrapper: dispatch,
//! correlation, callback application.

use unified_liquidity::liquidity_wrapper::contract::{
    execute_add_liquidity, execute_claim_rewards, execute_remove_liquidity,
    execute_transfer_position, execute_update_position, instantiate, query_pending_operations,
    query_pool_liquidity, query_pool_positions, query_position, reply, REPLY_ADD_LIQUIDITY,
    REPLY_REMOVE_LIQUIDITY, REPLY_TRANSFER_POSITION,
};
use unified_liquidity::liquidity_wrapper::error::ContractError;
use unified_liquidity::liquidity_wrapper::msg::{
    EuclidAction, EuclidResponse, InstantiateMsg, ReplyData,
};
use unified_liquidity::liquidity_wrapper::state::{LedgerStore, LiquidityPosition};

fn s(x: &str) -> String {
    x.to_string()
}

fn setup() -> LedgerStore {
    let mut store = LedgerStore::new();
    let msg = InstantiateMsg {
        ul_nft_contract: s("nft"),
        euclid_router: s("router"),
        euclid_factory: s("factory"),
    };
    instantiate(&mut store, s("admin"), msg).unwrap();
    store
}

fn confirmed_position(pool: &str, amount: u128) -> LiquidityPosition {
    LiquidityPosition {
        pool_id: s(pool),
        chain_id: s("chain-a"),
        token_pair: (s("tokA"), s("tokB")),
        amount,
        last_updated: 0,
    }
}

/// Dispatch an add for `alice` and confirm it at time 1, yielding the
/// token `ulp-1-pool-1` with the given amount.
fn setup_with_position(amount: u128) -> LedgerStore {
    let mut store = setup();
    execute_add_liquidity(
        &mut store,
        s("alice"),
        Vec::new(),
        s("pool-1"),
        s("chain-a"),
        (s("tokA"), s("tokB")),
        amount,
        1,
    )
    .unwrap();
    let resp = EuclidResponse {
        success: true,
        data: ReplyData::Position(confirmed_position("pool-1", amount)),
        error: None,
    };
    reply(&mut store, 1, REPLY_ADD_LIQUIDITY, resp).unwrap();
    store
}

#[test]
fn add_liquidity_round_trip() {
    let mut store = setup();
    let res = execute_add_liquidity(
        &mut store,
        s("alice"),
        Vec::new(),
        s("pool-1"),
        s("chain-a"),
        (s("tokA"), s("tokB")),
        1000,
        1,
    )
    .unwrap();
    assert_eq!(res.messages.len(), 1);
    assert_eq!(res.messages[0].reply_id, Some(REPLY_ADD_LIQUIDITY));
    assert_eq!(res.messages[0].contract_addr, "router");
    assert!(matches!(res.messages[0].msg.action, EuclidAction::AddLiquidity));

    // The requester is queued before the call goes out.
    let pending = query_pending_operations(&store, &s("pool-1"));
    assert_eq!(pending, vec![s("alice")]);

    // The success callback credits the oldest queued requester.
    let resp = EuclidResponse {
        success: true,
        data: ReplyData::Position(confirmed_position("pool-1", 1000)),
        error: None,
    };
    let res = reply(&mut store, 42, REPLY_ADD_LIQUIDITY, resp).unwrap();
    assert_eq!(res.attributes[1].1, "ulp-42-pool-1");

    let rec = query_position(&store, &s("ulp-42-pool-1")).unwrap();
    assert_eq!(rec.owner, "alice");
    assert_eq!(rec.token_id, "ulp-42-pool-1");
    assert_eq!(rec.position.amount, 1000);
    assert_eq!(query_pool_liquidity(&store, &s("pool-1")), 1000);
    assert!(query_pending_operations(&store, &s("pool-1")).is_empty());
}

#[test]
fn partial_remove_after_router_success() {
    let mut store = setup_with_position(1000);
    let res =
        execute_remove_liquidity(&mut store, s("alice"), s("ulp-1-pool-1"), Some(500)).unwrap();
    assert_eq!(res.messages[0].reply_id, Some(REPLY_REMOVE_LIQUIDITY));

    let resp = EuclidResponse {
        success: true,
        data: ReplyData::Removal { token_id: s("ulp-1-pool-1"), amount: 500 },
        error: None,
    };
    reply(&mut store, 2, REPLY_REMOVE_LIQUIDITY, resp).unwrap();
    let rec = query_position(&store, &s("ulp-1-pool-1")).unwrap();
    assert_eq!(rec.position.amount, 500);
    assert_eq!(query_pool_liquidity(&store, &s("pool-1")), 500);
}

#[test]
fn full_remove_deletes_the_record() {
    let mut store = setup_with_position(1000);
    // An omitted amount resolves to the full stored amount.
    execute_remove_liquidity(&mut store, s("alice"), s("ulp-1-pool-1"), None).unwrap();
    let resp = EuclidResponse {
        success: true,
        data: ReplyData::Removal { token_id: s("ulp-1-pool-1"), amount: 1000 },
        error: None,
    };
    reply(&mut store, 2, REPLY_REMOVE_LIQUIDITY, resp).unwrap();
    assert!(query_position(&store, &s("ulp-1-pool-1")).is_none());
    assert_eq!(query_pool_liquidity(&store, &s("pool-1")), 0);
}

#[test]
fn excessive_remove_fails_before_dispatch() {
    let mut store = setup_with_position(1000);
    let err = execute_remove_liquidity(&mut store, s("alice"), s("ulp-1-pool-1"), Some(1500))
        .unwrap_err();
    assert_eq!(err, ContractError::InsufficientLiquidity);
    // The ledger is identical to before the call.
    let rec = query_position(&store, &s("ulp-1-pool-1")).unwrap();
    assert_eq!(rec.position.amount, 1000);
    assert_eq!(query_pool_liquidity(&store, &s("pool-1")), 1000);
}

#[test]
fn transfer_changes_only_the_chain() {
    let mut store = setup_with_position(1000);
    let res =
        execute_transfer_position(&mut store, s("alice"), s("ulp-1-pool-1"), s("chain-b"))
            .unwrap();
    assert_eq!(res.messages[0].reply_id, Some(REPLY_TRANSFER_POSITION));

    let resp = EuclidResponse {
        success: true,
        data: ReplyData::Transfer { token_id: s("ulp-1-pool-1"), new_chain_id: s("chain-b") },
        error: None,
    };
    reply(&mut store, 3, REPLY_TRANSFER_POSITION, resp).unwrap();
    let rec = query_position(&store, &s("ulp-1-pool-1")).unwrap();
    assert_eq!(rec.position.chain_id, "chain-b");
    assert_eq!(rec.owner, "alice");
    assert_eq!(rec.position.amount, 1000);
    assert_eq!(rec.token_id, "ulp-1-pool-1");
}

#[test]
fn non_owner_commands_fail_unauthorized() {
    let mut store = setup_with_position(1000);
    let tid = s("ulp-1-pool-1");
    assert_eq!(
        execute_remove_liquidity(&mut store, s("mallory"), tid.clone(), Some(1)).unwrap_err(),
        ContractError::Unauthorized
    );
    assert_eq!(
        execute_transfer_position(&mut store, s("mallory"), tid.clone(), s("chain-b"))
            .unwrap_err(),
        ContractError::Unauthorized
    );
    assert_eq!(
        execute_update_position(&mut store, 9, s("mallory"), tid.clone(), 5).unwrap_err(),
        ContractError::Unauthorized
    );
    assert_eq!(
        execute_claim_rewards(&mut store, s("mallory"), tid.clone()).unwrap_err(),
        ContractError::Unauthorized
    );
    // The ledger is unchanged throughout.
    let rec = query_position(&store, &tid).unwrap();
    assert_eq!(rec.owner, "alice");
    assert_eq!(rec.position.amount, 1000);
    assert_eq!(query_pool_liquidity(&store, &s("pool-1")), 1000);
}

#[test]
fn unknown_correlation_tag_is_fatal() {
    let mut store = setup_with_position(1000);
    let resp = EuclidResponse {
        success: true,
        data: ReplyData::Removal { token_id: s("ulp-1-pool-1"), amount: 500 },
        error: None,
    };
    let err = reply(&mut store, 7, 99, resp).unwrap_err();
    assert_eq!(err, ContractError::UnknownCorrelationTag);
    // Every map is left exactly as it was.
    let rec = query_position(&store, &s("ulp-1-pool-1")).unwrap();
    assert_eq!(rec.position.amount, 1000);
    assert_eq!(query_pool_liquidity(&store, &s("pool-1")), 1000);
    assert!(query_pending_operations(&store, &s("pool-1")).is_empty());
}

#[test]
fn router_failure_leaves_pending_entry() {
    let mut store = setup();
    execute_add_liquidity(
        &mut store,
        s("alice"),
        Vec::new(),
        s("pool-1"),
        s("chain-a"),
        (s("tokA"), s("tokB")),
        1000,
        1,
    )
    .unwrap();
    let resp = EuclidResponse {
        success: false,
        data: ReplyData::Position(confirmed_position("pool-1", 1000)),
        error: Some(s("router says no")),
    };
    let err = reply(&mut store, 1, REPLY_ADD_LIQUIDITY, resp).unwrap_err();
    assert_eq!(err, ContractError::CrossChainOperationFailed);
    // The failure does not name a requester, so the entry stays.
    assert_eq!(query_pending_operations(&store, &s("pool-1")), vec![s("alice")]);
    assert_eq!(query_pool_liquidity(&store, &s("pool-1")), 0);
}

#[test]
fn add_callback_without_request_fails() {
    let mut store = setup();
    let resp = EuclidResponse {
        success: true,
        data: ReplyData::Position(confirmed_position("pool-1", 1000)),
        error: None,
    };
    let err = reply(&mut store, 1, REPLY_ADD_LIQUIDITY, resp).unwrap_err();
    assert_eq!(err, ContractError::Unauthorized);
}

#[test]
fn mismatched_payload_is_rejected() {
    let mut store = setup_with_position(1000);
    let resp = EuclidResponse {
        success: true,
        data: ReplyData::Removal { token_id: s("ulp-1-pool-1"), amount: 500 },
        error: None,
    };
    let err = reply(&mut store, 5, REPLY_ADD_LIQUIDITY, resp).unwrap_err();
    assert_eq!(err, ContractError::InvalidReplyData);
}

#[test]
fn queued_requesters_resolve_in_order() {
    let mut store = setup();
    for who in ["alice", "bob"] {
        execute_add_liquidity(
            &mut store,
            s(who),
            Vec::new(),
            s("pool-1"),
            s("chain-a"),
            (s("tokA"), s("tokB")),
            100,
            1,
        )
        .unwrap();
    }
    assert_eq!(
        query_pending_operations(&store, &s("pool-1")),
        vec![s("alice"), s("bob")]
    );
    let resp = EuclidResponse {
        success: true,
        data: ReplyData::Position(confirmed_position("pool-1", 100)),
        error: None,
    };
    reply(&mut store, 11, REPLY_ADD_LIQUIDITY, resp).unwrap();
    // The oldest requester was credited; the younger one still waits.
    assert_eq!(query_position(&store, &s("ulp-11-pool-1")).unwrap().owner, "alice");
    assert_eq!(query_pending_operations(&store, &s("pool-1")), vec![s("bob")]);
}

#[test]
fn pool_aggregate_matches_position_sum() {
    let mut store = setup_with_position(1000);
    // A second pool with two confirmations at distinct times.
    for (t, amount) in [(5u64, 70u128), (6, 30)] {
        execute_add_liquidity(
            &mut store,
            s("carol"),
            Vec::new(),
            s("pool-2"),
            s("chain-a"),
            (s("tokA"), s("tokB")),
            amount,
            1,
        )
        .unwrap();
        let resp = EuclidResponse {
            success: true,
            data: ReplyData::Position(confirmed_position("pool-2", amount)),
            error: None,
        };
        reply(&mut store, t, REPLY_ADD_LIQUIDITY, resp).unwrap();
    }
    for pool in ["pool-1", "pool-2"] {
        let total: u128 = query_pool_positions(&store, &s(pool))
            .iter()
            .map(|p| p.position.amount)
            .sum();
        assert_eq!(query_pool_liquidity(&store, &s(pool)), total);
    }
    assert_eq!(query_pool_liquidity(&store, &s("pool-2")), 100);
}

#[test]
fn update_position_keeps_aggregate_consistent() {
    let mut store = setup_with_position(1000);
    execute_update_position(&mut store, 8, s("alice"), s("ulp-1-pool-1"), 400).unwrap();
    let rec = query_position(&store, &s("ulp-1-pool-1")).unwrap();
    assert_eq!(rec.position.amount, 400);
    assert_eq!(rec.position.last_updated, 8);
    assert_eq!(query_pool_liquidity(&store, &s("pool-1")), 400);
}
